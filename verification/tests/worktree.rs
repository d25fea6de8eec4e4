use codex_agents::worktree::{
    add_worktree_failure, command_error_message, command_stderr, default_branch_name,
    finalize_first_step, finalize_next_step, git_command_result, head_commit_from_output,
    new_worktree_info, path_to_utf8, provision_plan, repo_root_from_output, retryable_add_error,
    sanitize_branch_name, worktree_stem, AgentWorktreeCleanup, AgentWorktreeCleanupStatus,
    AgentWorktreeInfo, FinalizeEvent, FinalizeStep, GitOutput, ProvisionEvent, ProvisionPlan,
    ProvisionStep, MAX_PROVISION_ATTEMPTS,
};

fn ok_output(stdout: &str) -> GitOutput {
    GitOutput { success: true, stdout: stdout.as_bytes().to_vec(), stderr: Vec::new() }
}

fn failed_output(stdout: &str, stderr: &str) -> GitOutput {
    GitOutput {
        success: false,
        stdout: stdout.as_bytes().to_vec(),
        stderr: stderr.as_bytes().to_vec(),
    }
}

/// What the repository and the worktree directory look like to the provisioning steps.
struct FakeRepo {
    branches: Vec<String>,
    paths: Vec<String>,
    add_errors: Vec<Option<String>>,
    adds: usize,
}

impl FakeRepo {
    fn answer(&mut self, step: &ProvisionStep) -> ProvisionEvent {
        match step {
            ProvisionStep::CheckBranch { branch, .. } => {
                ProvisionEvent::BranchChecked { exists: self.branches.contains(branch) }
            }
            ProvisionStep::CheckPath { stem, .. } => ProvisionEvent::PathChecked {
                exists: self.paths.contains(stem),
                display: format!("/repo/.codex-worktrees/{stem}"),
            },
            ProvisionStep::AddWorktree { .. } => {
                let error = self.add_errors.get(self.adds).cloned().flatten();
                self.adds += 1;
                match error {
                    Some(message) => add_worktree_failure(message),
                    None => ProvisionEvent::WorktreeAdded(Ok(())),
                }
            }
            other => panic!("no answer for {other:?}"),
        }
    }
}

fn run_provision(plan: &ProvisionPlan, repo: &mut FakeRepo) -> ProvisionStep {
    let mut step = plan.first_step();
    loop {
        match step {
            ProvisionStep::Done { .. } | ProvisionStep::Failed { .. } => return step,
            _ => {
                let event = repo.answer(&step);
                step = plan.next_step(step, event);
            }
        }
    }
}

fn empty_repo() -> FakeRepo {
    FakeRepo { branches: Vec::new(), paths: Vec::new(), add_errors: Vec::new(), adds: 0 }
}

#[test]
fn sanitize_branch_name_examples() {
    assert_eq!(sanitize_branch_name("feature/Foo Bar"), "feature/Foo-Bar");
    assert_eq!(sanitize_branch_name("//a//b//"), "a/b");
    assert_eq!(sanitize_branch_name("---"), "codex/agent/generated");
    assert_eq!(sanitize_branch_name(""), "codex/agent/generated");
    assert_eq!(sanitize_branch_name(".hidden."), "hidden");
    assert_eq!(sanitize_branch_name("ümlaut"), "mlaut");
    assert_eq!(sanitize_branch_name("a/./b"), "a/./b");
    assert_eq!(sanitize_branch_name("call_1.v2"), "call_1.v2");
}

#[test]
fn sanitized_names_hold_only_safe_characters() {
    for input in ["x y z", "😀/😀", "   ", "a//b", "../../etc/passwd", "UPPER_case-1.2"] {
        let name = sanitize_branch_name(input);
        assert!(!name.is_empty());
        assert!(name
            .chars()
            .all(|c| c.is_ascii_alphanumeric() || matches!(c, '.' | '_' | '-' | '/')));
    }
}

#[test]
fn default_branch_names_and_stems() {
    assert_eq!(default_branch_name("thread-1", "call/1", 0), "codex/agent/thread-1/call-1");
    assert_eq!(default_branch_name("thread-1", "call/1", 3), "codex/agent/thread-1/call-1-3");
    assert_eq!(
        default_branch_name("t", "!!!", 0),
        "codex/agent/t/codex-agent-generated"
    );
    assert_eq!(worktree_stem("codex/agent/t/call-1", 0), "codex__agent__t__call-1");
    assert_eq!(worktree_stem("codex/agent/t/call-1", 2), "codex__agent__t__call-1--2");
}

#[test]
fn command_errors_prefer_stderr_then_stdout() {
    assert_eq!(command_error_message("git failed", "  fatal: bad\n", Some("out")), "git failed: fatal: bad");
    assert_eq!(command_error_message("git failed", " \n", Some(" out \n")), "git failed: out");
    assert_eq!(command_error_message("git failed", "", Some("  ")), "git failed");
    assert_eq!(command_error_message("git failed", "", None), "git failed");
    assert_eq!(
        command_stderr("git failed", &[0x66, 0xff, 0x6f], None),
        "git failed: f\u{FFFD}o"
    );
    assert_eq!(command_stderr("git failed", b"", Some(b"done\n")), "git failed: done");
}

#[test]
fn paths_must_be_utf8() {
    assert_eq!(path_to_utf8(&b"/tmp/x".to_vec()), Ok("/tmp/x".to_string()));
    assert_eq!(
        path_to_utf8(&vec![b'/', 0xff]),
        Err("path is not valid UTF-8: /\u{FFFD}".to_string())
    );
}

#[test]
fn git_outputs_are_read_and_trimmed() {
    assert_eq!(repo_root_from_output(&ok_output("/repo\n")), Ok("/repo".to_string()));
    assert_eq!(
        repo_root_from_output(&failed_output("", "fatal")),
        Err("worktree isolation requires cwd to be inside a git repository".to_string())
    );
    assert_eq!(
        repo_root_from_output(&ok_output("  \n")),
        Err("git repo root query returned an empty path".to_string())
    );
    let bad = GitOutput { success: true, stdout: vec![0xff], stderr: Vec::new() };
    let err = repo_root_from_output(&bad).unwrap_err();
    assert!(err.starts_with("invalid UTF-8 from git repo root query: "));
    assert!(err.len() > "invalid UTF-8 from git repo root query: ".len());

    assert_eq!(head_commit_from_output(&ok_output("abc123\n")), Ok("abc123".to_string()));
    assert_eq!(
        head_commit_from_output(&failed_output("", "fatal: no HEAD\n")),
        Err("git rev-parse HEAD failed: fatal: no HEAD".to_string())
    );
    assert_eq!(
        head_commit_from_output(&ok_output("")),
        Err("git rev-parse HEAD returned an empty commit".to_string())
    );
    assert_eq!(git_command_result(&ok_output(""), "git worktree add failed"), Ok(()));
    assert_eq!(
        git_command_result(&failed_output("", "boom"), "git worktree add failed"),
        Err("git worktree add failed: boom".to_string())
    );
}

#[test]
fn plan_trims_base_ref_and_sanitizes_branch() {
    let plan = provision_plan(Some("  main \n"), Some("my branch"), "owner", "call-1");
    assert_eq!(plan.base_ref, "main");
    assert_eq!(plan.explicit_branch.as_deref(), Some("my-branch"));
    let plan = provision_plan(Some("   "), None, "owner", "call-1");
    assert_eq!(plan.base_ref, "HEAD");
    assert_eq!(plan.explicit_branch, None);
    let plan = provision_plan(None, None, "owner", "call-1");
    assert_eq!(plan.base_ref, "HEAD");
}

#[test]
fn provision_creates_worktree_and_branch() {
    let plan = provision_plan(Some("HEAD"), None, "owner", "call-1");
    let mut repo = empty_repo();
    match run_provision(&plan, &mut repo) {
        ProvisionStep::Done { branch, stem } => {
            assert!(branch.starts_with("codex/agent/"));
            assert_eq!(branch, "codex/agent/owner/call-1");
            assert_eq!(stem, "codex__agent__owner__call-1");
        }
        other => panic!("unexpected {other:?}"),
    }
}

#[test]
fn provision_skips_taken_branches_paths_and_retryable_failures() {
    let plan = provision_plan(None, None, "owner", "call-1");
    let mut repo = FakeRepo {
        branches: vec!["codex/agent/owner/call-1".to_string()],
        paths: vec!["codex__agent__owner__call-1-1--1".to_string()],
        add_errors: vec![Some("fatal: 'X' Is Already Checked Out at '/y'".to_string())],
        adds: 0,
    };
    match run_provision(&plan, &mut repo) {
        ProvisionStep::Done { branch, stem } => {
            assert_eq!(branch, "codex/agent/owner/call-1-3");
            assert_eq!(stem, "codex__agent__owner__call-1-3--3");
        }
        other => panic!("unexpected {other:?}"),
    }
}

#[test]
fn provision_stops_on_other_add_failures() {
    let plan = provision_plan(None, None, "owner", "call-1");
    let mut repo = FakeRepo {
        branches: Vec::new(),
        paths: Vec::new(),
        add_errors: vec![Some("git worktree add failed: invalid reference: nope".to_string())],
        adds: 0,
    };
    match run_provision(&plan, &mut repo) {
        ProvisionStep::Failed { message } => {
            assert_eq!(message, "git worktree add failed: invalid reference: nope")
        }
        other => panic!("unexpected {other:?}"),
    }
}

#[test]
fn explicit_branch_is_never_retried() {
    let plan = provision_plan(None, Some("codex/agent/custom"), "owner", "call-2");
    let mut taken = empty_repo();
    taken.branches.push("codex/agent/custom".to_string());
    match run_provision(&plan, &mut taken) {
        ProvisionStep::Failed { message } => {
            assert_eq!(message, "git branch already exists: codex/agent/custom")
        }
        other => panic!("unexpected {other:?}"),
    }
    let mut path_taken = empty_repo();
    path_taken.paths.push("codex__agent__custom".to_string());
    match run_provision(&plan, &mut path_taken) {
        ProvisionStep::Failed { message } => assert_eq!(
            message,
            "worktree path already exists: /repo/.codex-worktrees/codex__agent__custom"
        ),
        other => panic!("unexpected {other:?}"),
    }
    let mut add_fails = empty_repo();
    add_fails.add_errors.push(Some("fatal: a branch named 'x' already exists".to_string()));
    match run_provision(&plan, &mut add_fails) {
        ProvisionStep::Failed { message } => {
            assert_eq!(message, "fatal: a branch named 'x' already exists")
        }
        other => panic!("unexpected {other:?}"),
    }
}

#[test]
fn provision_gives_up_after_the_attempt_limit() {
    let plan = provision_plan(None, None, "owner", "call-1");
    let mut repo = empty_repo();
    repo.add_errors = vec![Some("already exists".to_string()); MAX_PROVISION_ATTEMPTS];
    match run_provision(&plan, &mut repo) {
        ProvisionStep::Failed { message } => assert_eq!(
            message,
            "failed to provision an isolated worktree after multiple attempts"
        ),
        other => panic!("unexpected {other:?}"),
    }
    assert_eq!(repo.adds, MAX_PROVISION_ATTEMPTS);
}

#[test]
fn add_failures_are_matched_case_insensitively() {
    match add_worktree_failure("Fatal: ALREADY EXISTS".to_string()) {
        ProvisionEvent::WorktreeAdded(Err((message, lowered))) => {
            assert_eq!(message, "Fatal: ALREADY EXISTS");
            assert_eq!(lowered, "fatal: already exists");
            assert!(retryable_add_error(&lowered));
        }
        other => panic!("unexpected {other:?}"),
    }
    assert!(!retryable_add_error("fatal: invalid reference"));
    assert!(retryable_add_error("'x' is already checked out at 'y'"));
}

fn worktree(cleanup: AgentWorktreeCleanup) -> AgentWorktreeInfo {
    new_worktree_info(
        "/repo".to_string(),
        "/repo/.codex-worktrees/codex__agent__custom".to_string(),
        "codex/agent/custom".to_string(),
        "HEAD".to_string(),
        cleanup,
        Ok("abc".to_string()),
    )
}

fn run_finalize(
    info: &mut AgentWorktreeInfo,
    force: bool,
    path_exists: bool,
    removed: Result<(), String>,
) -> Result<(), String> {
    let mut step = finalize_first_step(info);
    let mut removed = Some(removed);
    loop {
        let event = match &step {
            FinalizeStep::Done(result) => return result.clone(),
            FinalizeStep::ReadHeadCommit => FinalizeEvent::HeadCommit(Ok("def".to_string())),
            FinalizeStep::CheckPathExists => FinalizeEvent::PathExists(path_exists),
            FinalizeStep::RemoveWorktree => FinalizeEvent::Removed(removed.take().unwrap()),
        };
        step = finalize_next_step(info, force, step, event);
    }
}

#[test]
fn finalize_keeps_worktree_when_policy_is_keep() {
    let mut info = worktree(AgentWorktreeCleanup::KeepWorktree);
    assert_eq!(info.cleanup_status, AgentWorktreeCleanupStatus::Pending);
    assert_eq!(info.tip_commit.as_deref(), Some("abc"));
    run_finalize(&mut info, false, true, Ok(())).expect("finalize worktree");
    assert_eq!(info.cleanup_status, AgentWorktreeCleanupStatus::Kept);
    assert_eq!(info.tip_commit.as_deref(), Some("def"));
}

#[test]
fn finalize_removes_worktree_when_policy_is_auto_remove() {
    let mut info = worktree(AgentWorktreeCleanup::AutoRemoveWorktree);
    run_finalize(&mut info, false, true, Ok(())).expect("finalize worktree");
    assert_eq!(info.cleanup_status, AgentWorktreeCleanupStatus::Removed);
    assert_eq!(info.cleanup_error, None);
}

#[test]
fn finalize_force_removes_and_records_failures() {
    let mut info = worktree(AgentWorktreeCleanup::KeepWorktree);
    let err = run_finalize(&mut info, true, true, Err("git worktree remove failed: busy".to_string()));
    assert_eq!(err, Err("git worktree remove failed: busy".to_string()));
    assert_eq!(info.cleanup_status, AgentWorktreeCleanupStatus::RemoveFailed);
    assert_eq!(info.cleanup_error.as_deref(), Some("git worktree remove failed: busy"));
    // Once settled, a second clean-up does nothing.
    assert!(matches!(finalize_first_step(&info), FinalizeStep::Done(Ok(()))));

    let mut gone = worktree(AgentWorktreeCleanup::AutoRemoveWorktree);
    run_finalize(&mut gone, false, false, Ok(())).expect("finalize worktree");
    assert_eq!(gone.cleanup_status, AgentWorktreeCleanupStatus::Removed);
}

#[test]
fn new_worktree_without_tip_commit() {
    let info = new_worktree_info(
        "/r".to_string(),
        "/r/w".to_string(),
        "b".to_string(),
        "HEAD".to_string(),
        AgentWorktreeCleanup::KeepWorktree,
        Err("git rev-parse HEAD failed".to_string()),
    );
    assert_eq!(info.tip_commit, None);
    assert_eq!(info.cleanup_error, None);
}

#[test]
fn sanitized_names_are_normal_and_stable() {
    for input in ["//a//b//", "-x-/-y-", "..//..", "a b/c", "", "codex/agent/generated", ".-/x/.-"] {
        let name = sanitize_branch_name(input);
        assert!(!name.contains("//"));
        for edge in ['-', '/', '.'] {
            assert!(!name.starts_with(edge) && !name.ends_with(edge));
        }
        assert_eq!(sanitize_branch_name(&name), name);
    }
    assert_eq!(sanitize_branch_name("-x-/-y-"), "x-/-y");
}
