use scrubjay::config::{Action, Config as RunConfig};
use scrubjay::package::config::Config;
use scrubjay::package::{Hook, Hooks};

fn names(v: Vec<&str>) -> Vec<String> {
    v.into_iter().map(|s| s.to_string()).collect()
}

#[test]
fn from_args_install() {
    let c = RunConfig::from_args("install", names(vec!["vim"]), false, false, false).unwrap();
    assert!(matches!(c.action, Action::Install));
    assert_eq!(c.package_names, names(vec!["vim"]));
    assert!(!c.dry_run);
    assert!(!c.force);
    assert!(!c.verbose);
}

#[test]
fn from_args_uninstall_flags() {
    let c = RunConfig::from_args("uninstall", names(vec!["a", "b"]), true, true, true).unwrap();
    assert!(matches!(c.action, Action::Uninstall));
    assert_eq!(c.package_names, names(vec!["a", "b"]));
    assert!(c.dry_run);
    assert!(c.force);
    assert!(c.verbose);
}

#[test]
fn from_args_reinstall() {
    let c = RunConfig::from_args("reinstall", names(vec!["zsh"]), false, true, false).unwrap();
    assert!(matches!(c.action, Action::Reinstall));
}

#[test]
fn from_args_unknown_subcommand() {
    assert!(RunConfig::from_args("status", names(vec!["x"]), false, false, false).is_none());
}

#[test]
fn missing_descriptor_yields_default_config() {
    let c = Config::from_dir(None);
    assert!(c.target.is_none());
    assert!(c.hooks.is_none());
    assert_eq!(c, Config::default());
}

#[test]
fn present_descriptor_is_taken_as_parsed() {
    let parsed = Config {
        target: Some("/tmp/out".to_string()),
        hooks: Some(Hooks {
            pre_install: Some(Hook { command: Some("touch marker".to_string()), script: None }),
            post_install: None,
            pre_uninstall: None,
            post_uninstall: None,
        }),
    };
    let c = Config::from_dir(Some(parsed.clone()));
    assert_eq!(c, parsed);
}

#[test]
fn script_name_of_hook() {
    let h = Hook { command: None, script: Some("setup.sh".to_string()) };
    assert_eq!(h.script_name(), Some("setup.sh"));
    let h = Hook { command: Some("true".to_string()), script: None };
    assert_eq!(h.script_name(), None);
}

#[test]
fn script_names_in_hook_order() {
    let c = Config {
        target: None,
        hooks: Some(Hooks {
            pre_install: Some(Hook { command: None, script: Some("pre.sh".to_string()) }),
            post_install: Some(Hook { command: Some("echo done".to_string()), script: None }),
            pre_uninstall: Some(Hook {
                command: Some("echo both".to_string()),
                script: Some("also-excluded.sh".to_string()),
            }),
            post_uninstall: None,
        }),
    };
    assert_eq!(c.script_names(), names(vec!["pre.sh", "also-excluded.sh"]));
}

#[test]
fn script_names_empty_without_hooks() {
    let c = Config { target: None, hooks: None };
    assert!(c.script_names().is_empty());
}
