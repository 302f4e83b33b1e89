//! A verified core for a dotfile symlink manager.
//!
//! A *package* is a directory whose immediate entries are symlinked into a
//! target directory tree.  This crate holds the decision logic of that
//! manager: which entries of a package become links, where each link lands,
//! when a link may be created or removed under the dry-run and force
//! policies, and in what order hooks and link passes run during an install,
//! uninstall or reinstall.  The surrounding binary performs the filesystem
//! walks, the symlink calls and the process spawns that these decisions call
//! for, and feeds the observed outcomes back in as plain values.

pub mod config;
pub mod package;
pub mod text;
