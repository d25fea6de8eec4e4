# codex_agents

Verified decision logic of two features of a coding agent's terminal client:
sub-agents (the `agent` tool, isolated git worktrees) and saved ChatGPT
accounts (the account registry, the account picker, automatic switching when
rate limits run low), plus the `/mcp` server manager views.

- `src/` is the library, written and proved with Verus. Each public function
  states its result in `ensures`; the `law_*` proof functions state properties
  that relate several calls.
- `app/` holds what the library leaves to its caller: reading and writing
  JSON files, running git, the event stream of the model, the clock, and the
  floating-point rate-limit windows.
- `tests/` runs the library on concrete values.
