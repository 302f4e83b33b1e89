//! A package: a directory whose immediate entries are symlinked into a
//! target tree, together with the decisions that install, uninstall and
//! reinstall it.
//!
//! The methods here never touch the filesystem or spawn a process.  They map
//! what the caller observed (a target path's own metadata, a hook's exit
//! status) to what the caller must do next (a [`FsOp`], a [`HookPlan`], the
//! step sequence of an operation), and the caller performs exactly what the
//! returned value says, stopping at the first error.

use vstd::prelude::*;
use crate::config::Config as ProgramConfig;
use crate::text::path_join;
use crate::text::join_path;

pub mod config;
pub mod error;
pub mod links;
pub mod overrides;
pub mod shell;

pub use self::config::{Config, Hook, Hooks};
pub use self::error::Error;
pub use self::links::{Link, LinkView};

verus! {

use crate::package::config::default_spec;

/// What the target path's own metadata shows, read without following
/// symlinks, so a dangling symlink counts as `Symlink`, not `Missing`.
#[derive(Clone, Copy, Debug, PartialEq, Eq, Structural)]
pub enum TargetState {
    /// No entry exists at the target path.
    Missing,
    /// The entry at the target path is itself a symlink.
    Symlink,
    /// The entry is a real directory.
    Directory,
    /// The entry is anything else: a regular file, a socket, a device.
    File,
}

/// One filesystem mutation the caller performs on a link's target path.
#[derive(Clone, Copy, Debug, PartialEq, Eq, Structural)]
pub enum FsOp {
    /// Touch nothing; the operation was simulated (dry run).
    Nothing,
    /// Create the symlink; nothing stands in its way.
    CreateSymlink,
    /// Remove the target as a single entry, then create the symlink.
    ReplaceFileThenSymlink,
    /// Remove the target recursively, then create the symlink.
    ReplaceDirThenSymlink,
    /// Remove the target as a single entry, never following it.
    RemoveFile,
    /// Remove the target recursively.
    RemoveDir,
}

/// The create policy: what `create` does to a target in state `target`, or
/// `None` when it must fail with `TargetExistsError`.  Dry run touches
/// nothing; an occupied target is replaced only under `force`.
pub open spec fn create_op(dry_run: bool, force: bool, target: TargetState) -> Option<FsOp> {
    if dry_run {
        Some(FsOp::Nothing)
    } else {
        match target {
            TargetState::Missing => Some(FsOp::CreateSymlink),
            TargetState::Directory => if force {
                Some(FsOp::ReplaceDirThenSymlink)
            } else {
                None
            },
            TargetState::Symlink => if force {
                Some(FsOp::ReplaceFileThenSymlink)
            } else {
                None
            },
            TargetState::File => if force {
                Some(FsOp::ReplaceFileThenSymlink)
            } else {
                None
            },
        }
    }
}

/// The remove policy: what `remove` does to a target in state `target`, or
/// `None` when it must fail with `NotASymlinkError`.  Dry run touches
/// nothing; a symlink is removed as a single entry, never followed; anything
/// else is removed only under `force`.  A missing target is treated as not a
/// symlink; when `force` is set the caller's removal then fails at the
/// filesystem, as it must.
pub open spec fn remove_op(dry_run: bool, force: bool, target: TargetState) -> Option<FsOp> {
    if dry_run {
        Some(FsOp::Nothing)
    } else {
        match target {
            TargetState::Symlink => Some(FsOp::RemoveFile),
            TargetState::Directory => if force {
                Some(FsOp::RemoveDir)
            } else {
                None
            },
            TargetState::File => if force {
                Some(FsOp::RemoveFile)
            } else {
                None
            },
            TargetState::Missing => if force {
                Some(FsOp::RemoveFile)
            } else {
                None
            },
        }
    }
}

/// The target state an operation leaves behind when the caller performs it.
pub open spec fn apply_op(op: FsOp, target: TargetState) -> TargetState {
    match op {
        FsOp::Nothing => target,
        FsOp::CreateSymlink => TargetState::Symlink,
        FsOp::ReplaceFileThenSymlink => TargetState::Symlink,
        FsOp::ReplaceDirThenSymlink => TargetState::Symlink,
        FsOp::RemoveFile => TargetState::Missing,
        FsOp::RemoveDir => TargetState::Missing,
    }
}

impl FsOp {
    /// The target state this operation leaves behind when performed on a
    /// target in state `target`.
    pub fn apply(self, target: TargetState) -> (r: TargetState)
        ensures
            r == apply_op(self, target),
    {
        match self {
            FsOp::Nothing => target,
            FsOp::CreateSymlink => TargetState::Symlink,
            FsOp::ReplaceFileThenSymlink => TargetState::Symlink,
            FsOp::ReplaceDirThenSymlink => TargetState::Symlink,
            FsOp::RemoveFile => TargetState::Missing,
            FsOp::RemoveDir => TargetState::Missing,
        }
    }
}

/// A lifecycle point at which a configured hook runs.
#[derive(Clone, Copy, Debug, PartialEq, Eq, Structural)]
pub enum HookEvent {
    PreInstall,
    PostInstall,
    PreUninstall,
    PostUninstall,
}

/// One full pass over the package's links.
#[derive(Clone, Copy, Debug, PartialEq, Eq, Structural)]
pub enum PassKind {
    /// Enumerate the links afresh and create each one.
    Create,
    /// Enumerate the links afresh and remove each one.
    Remove,
}

/// One step of a top-level operation.
#[derive(Clone, Copy, Debug, PartialEq, Eq, Structural)]
pub enum Step {
    /// Run the hook configured for this event, if any.
    RunHook(HookEvent),
    /// Run one full link pass.  Each pass enumerates the package afresh: the
    /// rules and the filesystem may have changed since an earlier pass.
    LinkPass(PassKind),
}

/// The step sequence of an install: pre-install hook, create pass,
/// post-install hook.
pub open spec fn install_steps() -> Seq<Step> {
    seq![
        Step::RunHook(HookEvent::PreInstall),
        Step::LinkPass(PassKind::Create),
        Step::RunHook(HookEvent::PostInstall),
    ]
}

/// The step sequence of an uninstall: pre-uninstall hook, remove pass,
/// post-uninstall hook.
pub open spec fn uninstall_steps() -> Seq<Step> {
    seq![
        Step::RunHook(HookEvent::PreUninstall),
        Step::LinkPass(PassKind::Remove),
        Step::RunHook(HookEvent::PostUninstall),
    ]
}

/// The step sequence of a reinstall: the whole uninstall sequence followed
/// by the whole install sequence, as one run.
pub open spec fn reinstall_steps() -> Seq<Step> {
    uninstall_steps() + install_steps()
}

/// How a hook is invoked.  Both forms run with the package root as working
/// directory.
#[derive(Clone, Debug, PartialEq, Eq)]
pub enum HookInvocation {
    /// Run this command line through a shell.
    Command(String),
    /// Execute this file directly, with no shell around it.
    Script(String),
}

/// What running one hook amounts to.  When `execute` is false (dry run) the
/// caller reports the invocation but neither spawns nor touches anything.
#[derive(Clone, Debug, PartialEq, Eq)]
pub struct HookPlan {
    /// The invocation, or `None` for a hook with neither command nor script.
    pub invocation: Option<HookInvocation>,
    /// The working directory for the spawned process: the package root.
    pub working_dir: String,
    /// Whether the caller actually spawns the process.
    pub execute: bool,
}

/// The outcome of a hook the caller ran: `Ok` for a zero exit status, and
/// `HookCommandError` carrying the invocation descriptor and the captured
/// stderr (or the spawn failure's description) otherwise.
pub fn command_outcome(descriptor: &str, success: bool, stderr: &str) -> (r: Result<(), Error>)
    ensures
        success ==> r is Ok,
        !success ==> (r matches Err(Error::HookCommandError(d, s)) && d@ == descriptor@ && s@
            == stderr@),
{
    if success {
        Ok(())
    } else {
        Err(Error::HookCommandError(descriptor.to_owned(), stderr.to_owned()))
    }
}

/// The hook configured for an event, if any.
pub open spec fn hook_for_event_spec(c: Config, event: HookEvent) -> Option<Hook> {
    match c.hooks {
        None => None,
        Some(h) => match event {
            HookEvent::PreInstall => h.pre_install,
            HookEvent::PostInstall => h.post_install,
            HookEvent::PreUninstall => h.pre_uninstall,
            HookEvent::PostUninstall => h.post_uninstall,
        },
    }
}

/// A package under one invocation: its canonical root path, its own
/// configuration, and the run configuration it operates under.  Immutable
/// once constructed.
#[derive(Debug)]
pub struct Package {
    /// The canonicalized absolute path of the package directory.
    pub path: String,
    /// The package's configuration, from its descriptor file.
    pub config: Config,
    /// The run configuration of this invocation.
    pub program_config: ProgramConfig,
}

impl Package {
    /// A package for a user-supplied path the caller has already looked at:
    /// `canonical_path` is its canonicalized form when the path exists, and
    /// `descriptor` is the parsed descriptor file when one exists.  A path
    /// that does not exist or is not a directory is rejected.
    pub fn new(
        relative_path: &str,
        canonical_path: Option<String>,
        is_dir: bool,
        descriptor: Option<Config>,
        program_config: ProgramConfig,
    ) -> (r: Result<Package, Error>)
        ensures
            canonical_path is None ==> (r matches Err(Error::PackageNotFound(p)) && p@
                == relative_path@),
            canonical_path matches Some(cp) ==> (if is_dir {
                r matches Ok(pkg) && pkg.path == cp && pkg.program_config == program_config
                    && pkg.config == (match descriptor {
                    Some(d) => d,
                    None => default_spec(),
                })
            } else {
                r matches Err(Error::PackageNotADirectory(p)) && p@ == cp@
            }),
    {
        match canonical_path {
            None => Err(Error::PackageNotFound(relative_path.to_owned())),
            Some(cp) => {
                if !is_dir {
                    Err(Error::PackageNotADirectory(cp))
                } else {
                    Ok(
                        Package {
                            path: cp,
                            config: Config::from_dir(descriptor),
                            program_config,
                        },
                    )
                }
            },
        }
    }

    /// The steps an install performs, in order.  The caller executes them
    /// one after another and stops at the first error.
    pub fn install(&self) -> (steps: Vec<Step>)
        ensures
            steps@ == install_steps(),
    {
        let mut steps: Vec<Step> = Vec::new();
        steps.push(Step::RunHook(HookEvent::PreInstall));
        steps.push(Step::LinkPass(PassKind::Create));
        steps.push(Step::RunHook(HookEvent::PostInstall));
        proof {
            assert(steps@ =~= install_steps());
        }
        steps
    }

    /// The steps an uninstall performs, in order.  The caller executes them
    /// one after another and stops at the first error.
    pub fn uninstall(&self) -> (steps: Vec<Step>)
        ensures
            steps@ == uninstall_steps(),
    {
        let mut steps: Vec<Step> = Vec::new();
        steps.push(Step::RunHook(HookEvent::PreUninstall));
        steps.push(Step::LinkPass(PassKind::Remove));
        steps.push(Step::RunHook(HookEvent::PostUninstall));
        proof {
            assert(steps@ =~= uninstall_steps());
        }
        steps
    }

    /// The steps a reinstall performs, in order: the whole uninstall
    /// sequence, then the whole install sequence, as one run.  The caller
    /// executes them one after another and stops at the first error, so a
    /// failure still shows in which half it occurred.
    pub fn reinstall(&self) -> (steps: Vec<Step>)
        ensures
            steps@ == reinstall_steps(),
    {
        let mut steps: Vec<Step> = Vec::new();
        steps.push(Step::RunHook(HookEvent::PreUninstall));
        steps.push(Step::LinkPass(PassKind::Remove));
        steps.push(Step::RunHook(HookEvent::PostUninstall));
        steps.push(Step::RunHook(HookEvent::PreInstall));
        steps.push(Step::LinkPass(PassKind::Create));
        steps.push(Step::RunHook(HookEvent::PostInstall));
        proof {
            assert(steps@ =~= reinstall_steps());
        }
        steps
    }

    /// The hook configured for an event, if any.
    pub fn hook_for_event(&self, event: HookEvent) -> (r: Option<&Hook>)
        ensures
            hook_for_event_spec(self.config, event) matches Some(h) ==> (r matches Some(rh) && *rh
                == h),
            hook_for_event_spec(self.config, event) is None ==> r is None,
    {
        match &self.config.hooks {
            None => None,
            Some(hooks) => match event {
                HookEvent::PreInstall => hooks.pre_install.as_ref(),
                HookEvent::PostInstall => hooks.post_install.as_ref(),
                HookEvent::PreUninstall => hooks.pre_uninstall.as_ref(),
                HookEvent::PostUninstall => hooks.post_uninstall.as_ref(),
            },
        }
    }

    /// What running `hook` amounts to: its command through a shell when one
    /// is set, else its script resolved under the package root, else
    /// nothing; executed only outside dry run, and always with the package
    /// root as working directory.
    pub fn hook_plan(&self, hook: &Hook) -> (p: HookPlan)
        ensures
            p.working_dir@ == self.path@,
            p.execute == !self.program_config.dry_run,
            hook.command matches Some(c) ==> (p.invocation matches Some(HookInvocation::Command(cl))
                && cl@ == c@),
            hook.command is None ==> (hook.script matches Some(s) ==> (p.invocation matches Some(
                HookInvocation::Script(sp),
            ) && sp@ == path_join(self.path@, s@))),
            (hook.command is None && hook.script is None) ==> p.invocation is None,
    {
        let invocation = if let Some(c) = &hook.command {
            Some(HookInvocation::Command(c.clone()))
        } else if let Some(s) = &hook.script {
            Some(HookInvocation::Script(join_path(self.path.as_str(), s.as_str())))
        } else {
            None
        };
        HookPlan {
            invocation,
            working_dir: self.path.clone(),
            execute: !self.program_config.dry_run,
        }
    }

    /// What creating `link` amounts to, given what the caller observed at
    /// the link's target path: the operation of the create policy, or
    /// `TargetExistsError` when something occupies the target and `force`
    /// was not given, in which case the caller performs nothing.
    pub fn create_link(&self, link: &Link, target: TargetState) -> (r: Result<FsOp, Error>)
        ensures
            create_op(self.program_config.dry_run, self.program_config.force, target) matches Some(
                op,
            ) ==> (r matches Ok(got) && got == op),
            create_op(self.program_config.dry_run, self.program_config.force, target) is None ==> (
            r matches Err(Error::TargetExistsError(p)) && p@ == link.target_path@),
    {
        if self.program_config.dry_run {
            Ok(FsOp::Nothing)
        } else {
            match target {
                TargetState::Missing => Ok(FsOp::CreateSymlink),
                TargetState::Directory => if self.program_config.force {
                    Ok(FsOp::ReplaceDirThenSymlink)
                } else {
                    Err(Error::TargetExistsError(link.target_path.clone()))
                },
                TargetState::Symlink => if self.program_config.force {
                    Ok(FsOp::ReplaceFileThenSymlink)
                } else {
                    Err(Error::TargetExistsError(link.target_path.clone()))
                },
                TargetState::File => if self.program_config.force {
                    Ok(FsOp::ReplaceFileThenSymlink)
                } else {
                    Err(Error::TargetExistsError(link.target_path.clone()))
                },
            }
        }
    }

    /// What removing `link` amounts to, given what the caller observed at
    /// the link's target path: the operation of the remove policy, or
    /// `NotASymlinkError` when the target is not a symlink and `force` was
    /// not given, in which case the caller performs nothing.
    pub fn remove_link(&self, link: &Link, target: TargetState) -> (r: Result<FsOp, Error>)
        ensures
            remove_op(self.program_config.dry_run, self.program_config.force, target) matches Some(
                op,
            ) ==> (r matches Ok(got) && got == op),
            remove_op(self.program_config.dry_run, self.program_config.force, target) is None ==> (
            r matches Err(Error::NotASymlinkError(p)) && p@ == link.target_path@),
    {
        if self.program_config.dry_run {
            Ok(FsOp::Nothing)
        } else {
            match target {
                TargetState::Symlink => Ok(FsOp::RemoveFile),
                TargetState::Directory => if self.program_config.force {
                    Ok(FsOp::RemoveDir)
                } else {
                    Err(Error::NotASymlinkError(link.target_path.clone()))
                },
                TargetState::File => if self.program_config.force {
                    Ok(FsOp::RemoveFile)
                } else {
                    Err(Error::NotASymlinkError(link.target_path.clone()))
                },
                TargetState::Missing => if self.program_config.force {
                    Ok(FsOp::RemoveFile)
                } else {
                    Err(Error::NotASymlinkError(link.target_path.clone()))
                },
            }
        }
    }
}

/// LAW: creating a link and immediately removing it, outside dry run,
/// returns the target to its pre-create state.  On a free target the create
/// policy creates the symlink, the remove policy removes exactly that
/// symlink, and the target is missing again; on an occupied target without
/// `force` the create policy fails and nothing is performed at all.
pub proof fn lemma_create_remove_round_trip(force: bool, target: TargetState)
    ensures
        target == TargetState::Missing ==> (create_op(false, force, target) matches Some(c)
            && remove_op(false, force, apply_op(c, target)) matches Some(r) && apply_op(
            r,
            apply_op(c, target),
        ) == target),
        target != TargetState::Missing && !force ==> create_op(false, force, target) is None,
{
}

/// LAW: under dry run no operation mutates the target, whatever `force`
/// says: the create and remove policies always yield the do-nothing
/// operation, and that operation leaves every target state unchanged.  The
/// hook side of the same law is the `execute` clause of
/// [`Package::hook_plan`]: under dry run no hook process is spawned.
pub proof fn lemma_dry_run_mutates_nothing(force: bool, target: TargetState)
    ensures
        create_op(true, force, target) == Some(FsOp::Nothing),
        remove_op(true, force, target) == Some(FsOp::Nothing),
        apply_op(FsOp::Nothing, target) == target,
{
}

} // verus!
