use codex_linux_sandbox::bwrap::{create_bwrap_command_args, BuildError, BwrapOptions};
use codex_linux_sandbox::launcher::{
    ensure_bwrap_available, is_debug_bwrap_enabled, missing_dependency_error, LandlockCommand, LaunchAction, LaunchError,
    LaunchStage, Launcher,
};
use codex_linux_sandbox::policy::SandboxPolicy;
use codex_linux_sandbox::restriction::restriction_plan;

fn strings(items: &[&str]) -> Vec<String> {
    items.iter().map(|s| s.to_string()).collect()
}

fn workspace(roots: &[&str]) -> SandboxPolicy {
    SandboxPolicy::WorkspaceWrite { writable_roots: strings(roots), network_access: false }
}

fn invocation(policy: SandboxPolicy, cwd: &str, no_proc: bool, command: &[&str]) -> LandlockCommand {
    LandlockCommand {
        sandbox_policy_cwd: cwd.to_string(),
        sandbox_policy: policy,
        no_proc,
        command: strings(command),
    }
}

/// Runs a launch to its end, with the given probe answer and a successful
/// restriction step; returns the last action and every action seen.
fn run(inv: LandlockCommand, found: bool) -> (LaunchAction, Vec<LaunchAction>) {
    let mut launcher = Launcher::new(inv);
    let mut seen = Vec::new();
    let mut action = launcher.start();
    loop {
        seen.push(action.clone());
        action = match action {
            LaunchAction::ProbeConfinementTool(_) => launcher.on_dependency_probed(found),
            LaunchAction::ApplyRestrictions(_) => launcher.on_restrictions_applied(Ok(())),
            other => return (other, seen),
        };
    }
}

fn argv_first(action: &LaunchAction) -> String {
    match action {
        LaunchAction::Exec(argv) => argv[0].clone(),
        other => panic!("unexpected action {other:?}"),
    }
}

#[test]
fn full_access_runs_command_unchanged() {
    let (last, seen) = run(invocation(SandboxPolicy::FullAccess, "/tmp", false, &["ls", "-la"]), false);
    match last {
        LaunchAction::Exec(argv) => assert_eq!(argv, strings(&["ls", "-la"])),
        other => panic!("unexpected action {other:?}"),
    }
    assert!(!seen.iter().any(|a| matches!(a, LaunchAction::ProbeConfinementTool(_))));
    match &seen[0] {
        LaunchAction::ApplyRestrictions(plan) => {
            assert!(!plan.no_new_privs);
            assert!(!plan.seccomp_filter);
            assert!(plan.write_rules.is_none());
        }
        other => panic!("unexpected action {other:?}"),
    }
}

#[test]
fn workspace_write_scenario_wraps_command() {
    let (last, seen) = run(invocation(workspace(&["/work"]), "/work", false, &["echo", "hi"]), true);
    match &seen[0] {
        LaunchAction::ProbeConfinementTool(binary) => assert_eq!(binary, &argv_first(&last)),
        other => panic!("unexpected action {other:?}"),
    }
    let argv = match last {
        LaunchAction::Exec(argv) => argv,
        other => panic!("unexpected action {other:?}"),
    };
    assert_eq!(argv[0], "bwrap");
    assert!(argv.windows(3).any(|w| w == ["--bind", "/work", "/work"]));
    assert_eq!(&argv[argv.len() - 2..], &["echo".to_string(), "hi".to_string()]);
    assert_eq!(argv[argv.len() - 3], "--");
    assert_eq!(
        argv,
        strings(&[
            "bwrap", "--new-session", "--die-with-parent", "--ro-bind", "/", "/", "--dev", "/dev",
            "--bind", "/work", "/work", "--unshare-pid", "--proc", "/proc", "--", "echo", "hi",
        ])
    );
}

#[test]
fn workspace_write_is_longer_and_starts_with_bwrap() {
    let command = strings(&["cargo", "test"]);
    let argv = create_bwrap_command_args(
        command.clone(),
        &workspace(&["/a", "/b"]),
        &"/a/sub".to_string(),
        BwrapOptions { mount_proc: false },
    )
    .unwrap();
    assert!(argv.len() > command.len());
    assert_eq!(argv[0], "bwrap");
    // The working directory lies under /a, so it gets no bind of its own.
    assert_eq!(argv.iter().filter(|a| *a == "--bind").count(), 2);
}

#[test]
fn uncovered_cwd_gets_its_own_bind() {
    let argv = create_bwrap_command_args(
        strings(&["true"]),
        &workspace(&["/work"]),
        &"/workspace".to_string(),
        BwrapOptions { mount_proc: false },
    )
    .unwrap();
    assert!(argv.windows(3).any(|w| w == ["--bind", "/workspace", "/workspace"]));
}

#[test]
fn read_only_binds_nothing_writable() {
    let argv = create_bwrap_command_args(
        strings(&["cat", "x"]),
        &SandboxPolicy::ReadOnly,
        &"/home".to_string(),
        BwrapOptions { mount_proc: true },
    )
    .unwrap();
    assert!(!argv.iter().any(|a| a == "--bind"));
    assert_eq!(argv[0], "bwrap");
}

#[test]
fn building_twice_gives_identical_argv() {
    let policy = workspace(&["/work", "/tmp"]);
    let cwd = "/srv".to_string();
    let a = create_bwrap_command_args(strings(&["make"]), &policy, &cwd, BwrapOptions { mount_proc: true });
    let b = create_bwrap_command_args(strings(&["make"]), &policy, &cwd, BwrapOptions { mount_proc: true });
    assert_eq!(a, b);
}

#[test]
fn mount_proc_only_adds_proc_args() {
    let policy = workspace(&["/work"]);
    let cwd = "/work".to_string();
    let with = create_bwrap_command_args(strings(&["id"]), &policy, &cwd, BwrapOptions { mount_proc: true }).unwrap();
    let without = create_bwrap_command_args(strings(&["id"]), &policy, &cwd, BwrapOptions { mount_proc: false }).unwrap();
    assert_eq!(with.len(), without.len() + 2);
    let pos = with.iter().position(|a| a == "--proc").unwrap();
    assert_eq!(with[pos + 1], "/proc");
    let mut removed = with.clone();
    removed.drain(pos..pos + 2);
    assert_eq!(removed, without);
    assert!(!without.iter().any(|a| a == "--proc"));
}

#[test]
fn no_proc_flag_skips_proc_mount() {
    let (last, _) = run(invocation(workspace(&["/work"]), "/work", true, &["echo", "hi"]), true);
    match last {
        LaunchAction::Exec(argv) => assert!(!argv.iter().any(|a| a == "--proc")),
        other => panic!("unexpected action {other:?}"),
    }
}

#[test]
fn empty_command_is_rejected_first() {
    for policy in [SandboxPolicy::ReadOnly, workspace(&["/work"]), SandboxPolicy::FullAccess] {
        let mut launcher = Launcher::new(invocation(policy, "/work", false, &[]));
        let action = launcher.start();
        assert!(matches!(action, LaunchAction::Abort(LaunchError::EmptyCommand)));
        assert_eq!(launcher.stage(), LaunchStage::Failed);
    }
}

#[test]
fn missing_bwrap_aborts_before_restrictions() {
    for policy in [SandboxPolicy::ReadOnly, workspace(&["/work"])] {
        let (last, seen) = run(invocation(policy, "/work", false, &["echo", "hi"]), false);
        assert!(!seen.iter().any(|a| matches!(a, LaunchAction::ApplyRestrictions(_))));
        match last {
            LaunchAction::Abort(LaunchError::MissingDependency { binary, install_hints }) => {
                assert_eq!(binary, "bwrap");
                assert!(install_hints.iter().any(|h| h.contains("apt-get install bubblewrap")));
                assert!(install_hints.iter().any(|h| h.contains("dnf install bubblewrap")));
                assert!(install_hints.iter().any(|h| h.contains("pacman -S bubblewrap")));
            }
            other => panic!("unexpected action {other:?}"),
        }
    }
}

#[test]
fn missing_dependency_error_lists_install_commands() {
    match missing_dependency_error("bwrap") {
        LaunchError::MissingDependency { binary, install_hints } => {
            assert_eq!(binary, "bwrap");
            assert_eq!(install_hints.len(), 3);
        }
        other => panic!("unexpected error {other:?}"),
    }
}

#[test]
fn restriction_failure_aborts_launch() {
    let mut launcher = Launcher::new(invocation(SandboxPolicy::ReadOnly, "/work", false, &["ls"]));
    match launcher.start() {
        LaunchAction::ProbeConfinementTool(binary) => assert_eq!(binary, "bwrap"),
        other => panic!("unexpected action {other:?}"),
    }
    assert!(matches!(launcher.on_dependency_probed(true), LaunchAction::ApplyRestrictions(_)));
    match launcher.on_restrictions_applied(Err("EPERM".to_string())) {
        LaunchAction::Abort(LaunchError::RestrictionApplicationFailed(msg)) => assert_eq!(msg, "EPERM"),
        other => panic!("unexpected action {other:?}"),
    }
    assert_eq!(launcher.stage(), LaunchStage::Failed);
}

#[test]
fn malformed_paths_abort_view_build() {
    let (last, _) = run(invocation(workspace(&["/work"]), "relative", false, &["ls"]), true);
    assert!(matches!(last, LaunchAction::Abort(LaunchError::ViewBuildFailed(BuildError::InvalidCwd))));
    let (last, _) = run(invocation(workspace(&["/ok", "bad"]), "/ok", false, &["ls"]), true);
    assert!(matches!(
        last,
        LaunchAction::Abort(LaunchError::ViewBuildFailed(BuildError::InvalidWritableRoot(1)))
    ));
}

#[test]
fn builder_errors() {
    let opts = BwrapOptions { mount_proc: true };
    assert_eq!(
        create_bwrap_command_args(Vec::new(), &SandboxPolicy::ReadOnly, &"/".to_string(), opts),
        Err(BuildError::EmptyCommand)
    );
    assert_eq!(
        create_bwrap_command_args(strings(&["ls"]), &SandboxPolicy::ReadOnly, &"/a\0b".to_string(), opts),
        Err(BuildError::InvalidCwd)
    );
    assert_eq!(
        create_bwrap_command_args(strings(&["ls"]), &workspace(&[""]), &"/".to_string(), opts),
        Err(BuildError::InvalidWritableRoot(0))
    );
}

#[test]
fn restriction_plan_follows_policy() {
    let cwd = "/work".to_string();
    let plan = restriction_plan(&workspace(&["/work", "/tmp"]), &cwd);
    assert!(plan.no_new_privs && plan.seccomp_filter);
    assert_eq!(plan.write_rules, Some(strings(&["/work", "/tmp"])));
    assert_eq!(plan.cwd, "/work");
    let plan = restriction_plan(&SandboxPolicy::ReadOnly, &cwd);
    assert_eq!(plan.write_rules, Some(Vec::new()));
    let plan = restriction_plan(&SandboxPolicy::FullAccess, &cwd);
    assert!(!plan.no_new_privs && !plan.seccomp_filter && plan.write_rules.is_none());
}

#[test]
fn policy_predicates() {
    assert!(SandboxPolicy::FullAccess.has_full_disk_write_access());
    assert!(!SandboxPolicy::FullAccess.requires_filesystem_confinement());
    assert!(SandboxPolicy::ReadOnly.requires_filesystem_confinement());
    assert!(SandboxPolicy::ReadOnly.writable_roots().is_empty());
    assert_eq!(workspace(&["/w"]).writable_roots(), strings(&["/w"]));
}

#[test]
fn debug_switch_values() {
    assert!(is_debug_bwrap_enabled(Some("1")));
    assert!(is_debug_bwrap_enabled(Some("true")));
    assert!(is_debug_bwrap_enabled(Some("TrUe")));
    assert!(!is_debug_bwrap_enabled(Some("yes")));
    assert!(!is_debug_bwrap_enabled(Some("0")));
    assert!(!is_debug_bwrap_enabled(Some("")));
    assert!(!is_debug_bwrap_enabled(Some("11")));
    assert!(!is_debug_bwrap_enabled(None));
}

#[test]
fn absent_binary_gives_missing_dependency_for_that_name() {
    let name = "no-such-confinement-binary-on-any-path";
    match ensure_bwrap_available(name) {
        Err(LaunchError::MissingDependency { binary, install_hints }) => {
            assert_eq!(binary, name);
            assert_eq!(install_hints.len(), 3);
        }
        other => panic!("unexpected result {other:?}"),
    }
}
