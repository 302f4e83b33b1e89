//! The run configuration of one invocation: the chosen action, the packages
//! it applies to, and the dry-run / force / verbose flags.

use vstd::prelude::*;
use crate::text::str_eq;

verus! {

/// The top-level operation selected for this run.
#[derive(Clone, Copy, Debug, PartialEq, Eq, Structural)]
pub enum Action {
    Install,
    Uninstall,
    Reinstall,
}

/// The configuration of one invocation.  It is shared read-only by every
/// package processed in that invocation and never mutated by this crate.
#[derive(Clone, Debug)]
pub struct Config {
    pub action: Action,
    pub package_names: Vec<String>,
    pub dry_run: bool,
    pub force: bool,
    pub verbose: bool,
}

impl Config {
    /// The configuration for a parsed command line: the subcommand's name
    /// picks the action, and the flags are taken as given.  A subcommand this
    /// crate does not know yields `None`.
    pub fn from_args(
        subcommand: &str,
        package_names: Vec<String>,
        dry_run: bool,
        force: bool,
        verbose: bool,
    ) -> (r: Option<Config>)
        ensures
            subcommand@ == "install"@ || subcommand@ == "uninstall"@ || subcommand@
                == "reinstall"@ ==> (r matches Some(c) && c.package_names == package_names
                && c.dry_run == dry_run && c.force == force && c.verbose == verbose),
            subcommand@ == "install"@ ==> (r matches Some(c) && c.action == Action::Install),
            subcommand@ == "uninstall"@ ==> (r matches Some(c) && c.action == Action::Uninstall),
            subcommand@ == "reinstall"@ ==> (r matches Some(c) && c.action == Action::Reinstall),
            subcommand@ != "install"@ && subcommand@ != "uninstall"@ && subcommand@
                != "reinstall"@ ==> r is None,
    {
        proof {
            reveal_strlit("install");
            reveal_strlit("uninstall");
            reveal_strlit("reinstall");
            assert("install"@.len() == 7);
            assert("uninstall"@.len() == 9);
            assert("reinstall"@.len() == 9);
            assert("uninstall"@[0] == 'u');
            assert("reinstall"@[0] == 'r');
        }
        let action = if str_eq(subcommand, "install") {
            Some(Action::Install)
        } else if str_eq(subcommand, "uninstall") {
            Some(Action::Uninstall)
        } else if str_eq(subcommand, "reinstall") {
            Some(Action::Reinstall)
        } else {
            None
        };
        match action {
            Some(action) => Some(
                Config { action, package_names, dry_run, force, verbose },
            ),
            None => None,
        }
    }
}

} // verus!
