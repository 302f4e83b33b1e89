//! The failure kinds of package operations.  Every one aborts the current
//! top-level operation for the current package; none is ever downgraded to a
//! warning.

use vstd::prelude::*;
use vstd::string::StringExecFns;

verus! {

/// Why a package operation failed.  Each variant carries what a single-line
/// `kind: detail` message needs.
#[derive(Clone, Debug, PartialEq, Eq)]
pub enum Error {
    /// The package path given on the command line does not exist.
    PackageNotFound(String),
    /// The package path exists but is not a directory.
    PackageNotADirectory(String),
    /// The descriptor file is present but malformed; the payload is the
    /// parser's message.
    DescriptorParseError(String),
    /// An exclusion pattern was rejected by the override builder.
    OverrideBuildError(String),
    /// The filesystem walk over the package root reported an error.
    WalkError(String),
    /// A walked entry's path is not rooted under the package path.
    PathRelativizationError(String),
    /// Expanding `~` or an environment variable in the target root failed.
    ShellExpansionError(String),
    /// `create` found something already at the target path and `force` was
    /// not given.
    TargetExistsError(String),
    /// `remove` found something that is not a symlink at the target path and
    /// `force` was not given.
    NotASymlinkError(String),
    /// A hook exited with a non-zero status or could not be spawned; the
    /// payload is the invocation descriptor and the captured stderr or spawn
    /// failure.
    HookCommandError(String, String),
}

/// The single-line message of an error.
pub open spec fn message_spec(e: Error) -> Seq<char> {
    match e {
        Error::PackageNotFound(p) => "`"@ + p@ + "` does not exist"@,
        Error::PackageNotADirectory(p) => "`"@ + p@ + "` is not a directory"@,
        Error::DescriptorParseError(m) => m@,
        Error::OverrideBuildError(m) => m@,
        Error::WalkError(m) => m@,
        Error::PathRelativizationError(p) => "`"@ + p@ + "` is not under the package root"@,
        Error::ShellExpansionError(m) => m@,
        Error::TargetExistsError(p) => "`"@ + p@ + "` already exists"@,
        Error::NotASymlinkError(p) => "`"@ + p@ + "` is not a symlink"@,
        Error::HookCommandError(d, s) => "`"@ + d@ + "` failed: "@ + s@,
    }
}

impl Error {
    /// The single-line message of this error, for the caller to report.
    pub fn message(&self) -> (r: String)
        ensures
            r@ == message_spec(*self),
    {
        match self {
            Error::PackageNotFound(p) => {
                let mut m = "`".to_owned();
                m.append(p.as_str());
                m.append("` does not exist");
                m
            },
            Error::PackageNotADirectory(p) => {
                let mut m = "`".to_owned();
                m.append(p.as_str());
                m.append("` is not a directory");
                m
            },
            Error::DescriptorParseError(m) => m.clone(),
            Error::OverrideBuildError(m) => m.clone(),
            Error::WalkError(m) => m.clone(),
            Error::PathRelativizationError(p) => {
                let mut m = "`".to_owned();
                m.append(p.as_str());
                m.append("` is not under the package root");
                m
            },
            Error::ShellExpansionError(m) => m.clone(),
            Error::TargetExistsError(p) => {
                let mut m = "`".to_owned();
                m.append(p.as_str());
                m.append("` already exists");
                m
            },
            Error::NotASymlinkError(p) => {
                let mut m = "`".to_owned();
                m.append(p.as_str());
                m.append("` is not a symlink");
                m
            },
            Error::HookCommandError(d, s) => {
                let mut m = "`".to_owned();
                m.append(d.as_str());
                m.append("` failed: ");
                m.append(s.as_str());
                m
            },
        }
    }
}

} // verus!
