use scrubjay::config::{Action, Config as RunConfig};
use scrubjay::package::config::Config;
use scrubjay::package::{
    command_outcome, Error, FsOp, HookEvent, HookInvocation, Hook, Hooks, Link, Package, PassKind,
    Step, TargetState,
};

fn run_config(action: Action, dry_run: bool, force: bool) -> RunConfig {
    RunConfig { action, package_names: vec!["pkg".to_string()], dry_run, force, verbose: false }
}

fn package(dry_run: bool, force: bool, config: Config) -> Package {
    Package::new(
        "pkg",
        Some("/home/user/pkg".to_string()),
        true,
        Some(config),
        run_config(Action::Install, dry_run, force),
    )
    .unwrap()
}

fn link() -> Link {
    Link {
        source_path: "/home/user/pkg/a.txt".to_string(),
        target_path: "/home/user/a.txt".to_string(),
    }
}

#[test]
fn new_rejects_missing_path() {
    let r = Package::new("nope", None, false, None, run_config(Action::Install, false, false));
    assert_eq!(r.unwrap_err(), Error::PackageNotFound("nope".to_string()));
}

#[test]
fn new_rejects_non_directory() {
    let r = Package::new(
        "file.txt",
        Some("/home/user/file.txt".to_string()),
        false,
        None,
        run_config(Action::Install, false, false),
    );
    assert_eq!(r.unwrap_err(), Error::PackageNotADirectory("/home/user/file.txt".to_string()));
}

#[test]
fn new_defaults_config_without_descriptor() {
    let p = Package::new(
        "pkg",
        Some("/home/user/pkg".to_string()),
        true,
        None,
        run_config(Action::Install, false, false),
    )
    .unwrap();
    assert_eq!(p.path, "/home/user/pkg");
    assert!(p.config.target.is_none());
    assert!(p.config.hooks.is_none());
}

#[test]
fn install_step_order() {
    let p = package(false, false, Config::default());
    assert_eq!(
        p.install(),
        vec![
            Step::RunHook(HookEvent::PreInstall),
            Step::LinkPass(PassKind::Create),
            Step::RunHook(HookEvent::PostInstall),
        ]
    );
}

#[test]
fn uninstall_step_order() {
    let p = package(false, false, Config::default());
    assert_eq!(
        p.uninstall(),
        vec![
            Step::RunHook(HookEvent::PreUninstall),
            Step::LinkPass(PassKind::Remove),
            Step::RunHook(HookEvent::PostUninstall),
        ]
    );
}

#[test]
fn reinstall_is_uninstall_then_install() {
    let p = package(false, false, Config::default());
    let mut expected = p.uninstall();
    expected.extend(p.install());
    assert_eq!(p.reinstall(), expected);
}

#[test]
fn create_on_free_target() {
    let p = package(false, false, Config::default());
    assert_eq!(p.create_link(&link(), TargetState::Missing), Ok(FsOp::CreateSymlink));
}

#[test]
fn create_on_occupied_target_without_force_fails_unchanged() {
    let p = package(false, false, Config::default());
    assert_eq!(
        p.create_link(&link(), TargetState::File),
        Err(Error::TargetExistsError("/home/user/a.txt".to_string()))
    );
}

#[test]
fn create_on_occupied_target_with_force_replaces() {
    let p = package(false, true, Config::default());
    assert_eq!(p.create_link(&link(), TargetState::File), Ok(FsOp::ReplaceFileThenSymlink));
    assert_eq!(p.create_link(&link(), TargetState::Directory), Ok(FsOp::ReplaceDirThenSymlink));
    assert_eq!(p.create_link(&link(), TargetState::Symlink), Ok(FsOp::ReplaceFileThenSymlink));
}

#[test]
fn remove_of_symlink_needs_no_force() {
    let p = package(false, false, Config::default());
    assert_eq!(p.remove_link(&link(), TargetState::Symlink), Ok(FsOp::RemoveFile));
}

#[test]
fn remove_of_real_directory_without_force_fails() {
    let p = package(false, false, Config::default());
    assert_eq!(
        p.remove_link(&link(), TargetState::Directory),
        Err(Error::NotASymlinkError("/home/user/a.txt".to_string()))
    );
}

#[test]
fn remove_of_real_directory_with_force_deletes_recursively() {
    let p = package(false, true, Config::default());
    assert_eq!(p.remove_link(&link(), TargetState::Directory), Ok(FsOp::RemoveDir));
}

#[test]
fn dry_run_plans_no_mutation() {
    for force in [false, true] {
        let p = package(true, force, Config::default());
        for state in [
            TargetState::Missing,
            TargetState::Symlink,
            TargetState::Directory,
            TargetState::File,
        ] {
            assert_eq!(p.create_link(&link(), state), Ok(FsOp::Nothing));
            assert_eq!(p.remove_link(&link(), state), Ok(FsOp::Nothing));
            assert_eq!(FsOp::Nothing.apply(state), state);
        }
    }
}

#[test]
fn create_then_remove_restores_free_target() {
    let p = package(false, false, Config::default());
    let created = p.create_link(&link(), TargetState::Missing).unwrap();
    let after_create = created.apply(TargetState::Missing);
    assert_eq!(after_create, TargetState::Symlink);
    let removed = p.remove_link(&link(), after_create).unwrap();
    assert_eq!(removed.apply(after_create), TargetState::Missing);
}

#[test]
fn reinstall_ends_like_clean_install() {
    let config = Config { target: Some("/tmp/out".to_string()), hooks: None };
    let p = package(false, true, config.clone());
    // Already installed: the target of each link is a symlink.
    let removed = p.remove_link(&link(), TargetState::Symlink).unwrap();
    let cleared = removed.apply(TargetState::Symlink);
    let recreated = p.create_link(&link(), cleared).unwrap();
    let reinstalled = recreated.apply(cleared);
    // Clean install: the target of each link is missing.
    let clean = package(false, true, config);
    let created = clean.create_link(&link(), TargetState::Missing).unwrap();
    let installed = created.apply(TargetState::Missing);
    assert_eq!(reinstalled, installed);
}

#[test]
fn hook_for_event_picks_the_configured_hook() {
    let pre = Hook { command: Some("echo pre".to_string()), script: None };
    let post = Hook { command: None, script: Some("post.sh".to_string()) };
    let p = package(
        false,
        false,
        Config {
            target: None,
            hooks: Some(Hooks {
                pre_install: Some(pre.clone()),
                post_install: Some(post.clone()),
                pre_uninstall: None,
                post_uninstall: None,
            }),
        },
    );
    assert_eq!(p.hook_for_event(HookEvent::PreInstall), Some(&pre));
    assert_eq!(p.hook_for_event(HookEvent::PostInstall), Some(&post));
    assert_eq!(p.hook_for_event(HookEvent::PreUninstall), None);
    assert_eq!(p.hook_for_event(HookEvent::PostUninstall), None);
}

#[test]
fn hook_plan_prefers_command_over_script() {
    let p = package(false, false, Config::default());
    let hook = Hook {
        command: Some("touch marker".to_string()),
        script: Some("ignored.sh".to_string()),
    };
    let plan = p.hook_plan(&hook);
    assert_eq!(plan.invocation, Some(HookInvocation::Command("touch marker".to_string())));
    assert_eq!(plan.working_dir, "/home/user/pkg");
    assert!(plan.execute);
}

#[test]
fn hook_plan_resolves_script_under_package_root() {
    let p = package(false, false, Config::default());
    let hook = Hook { command: None, script: Some("setup.sh".to_string()) };
    let plan = p.hook_plan(&hook);
    assert_eq!(
        plan.invocation,
        Some(HookInvocation::Script("/home/user/pkg/setup.sh".to_string()))
    );
    assert_eq!(plan.working_dir, "/home/user/pkg");
}

#[test]
fn hook_plan_of_empty_hook_is_a_no_op() {
    let p = package(false, false, Config::default());
    let plan = p.hook_plan(&Hook { command: None, script: None });
    assert_eq!(plan.invocation, None);
}

#[test]
fn hook_plan_does_not_execute_under_dry_run() {
    let p = package(true, false, Config::default());
    let hook = Hook { command: Some("touch marker".to_string()), script: None };
    assert!(!p.hook_plan(&hook).execute);
}

#[test]
fn command_outcome_success() {
    assert_eq!(command_outcome("touch marker", true, ""), Ok(()));
}

#[test]
fn command_outcome_failure_carries_descriptor_and_stderr() {
    assert_eq!(
        command_outcome("badcmd", false, "sh: badcmd: not found"),
        Err(Error::HookCommandError("badcmd".to_string(), "sh: badcmd: not found".to_string()))
    );
}

#[test]
fn error_messages() {
    assert_eq!(
        Error::PackageNotFound("pkg".to_string()).message(),
        "`pkg` does not exist"
    );
    assert_eq!(
        Error::PackageNotADirectory("/a/b".to_string()).message(),
        "`/a/b` is not a directory"
    );
    assert_eq!(
        Error::TargetExistsError("/home/user/a".to_string()).message(),
        "`/home/user/a` already exists"
    );
    assert_eq!(
        Error::NotASymlinkError("/home/user/a".to_string()).message(),
        "`/home/user/a` is not a symlink"
    );
    assert_eq!(
        Error::HookCommandError("badcmd".to_string(), "boom".to_string()).message(),
        "`badcmd` failed: boom"
    );
    assert_eq!(
        Error::PathRelativizationError("/elsewhere/x".to_string()).message(),
        "`/elsewhere/x` is not under the package root"
    );
    assert_eq!(Error::DescriptorParseError("bad toml".to_string()).message(), "bad toml");
    assert_eq!(Error::WalkError("walk failed".to_string()).message(), "walk failed");
    assert_eq!(Error::OverrideBuildError("bad glob".to_string()).message(), "bad glob");
    assert_eq!(Error::ShellExpansionError("no such var".to_string()).message(), "no such var");
}
