//! Decision logic of the multi-agent and saved-account features: agent runs,
//! git worktree isolation, the saved ChatGPT account registry and picker, and
//! the MCP server manager views.

pub mod text;
pub mod agent;
pub mod sort;
pub mod clock;
pub mod str_map;
pub mod saved_accounts;
pub mod account_picker;
pub mod chat_widget;
pub mod mcp;
pub mod worktree;
