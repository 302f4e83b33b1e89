//! The shell-path resolver: expanding `~` and environment references in the
//! configured target root.
//!
//! Expansion reads the environment, so its result cannot be pinned down
//! ahead of the call; what is stated is what holds of every outcome, and
//! that a string with nothing to expand comes back unchanged.

use vstd::prelude::*;
use super::Package;
use super::config::Config;
use super::error::Error;

verus! {

/// True when expansion has nothing to do in `s`: no `$` anywhere and no
/// leading `~`.
pub open spec fn no_expansion_chars(s: Seq<char>) -> bool {
    (forall|i: int| 0 <= i < s.len() ==> s[i] != '$') && (s.len() > 0 ==> s[0] != '~')
}

/// Relies on `shellexpand::full`: expands a leading `~` through the home
/// directory and `$VAR`/`${VAR}` references through the environment.  Its
/// only failure is a variable lookup failure, reported here as
/// `ShellExpansionError` carrying the lookup error's message; a string with
/// no `$` and no leading `~` comes back unchanged.
#[verifier::external_body]
fn shell_expand(s: &str) -> (r: Result<String, Error>)
    ensures
        no_expansion_chars(s@) ==> r is Ok,
        r matches Ok(out) ==> (no_expansion_chars(s@) ==> out@ == s@),
        r matches Err(e) ==> e matches Error::ShellExpansionError(_),
{
    match shellexpand::full(s) {
        Ok(expanded) => Ok(expanded.into_owned()),
        Err(e) => Err(Error::ShellExpansionError(e.to_string())),
    }
}

/// The string whose expansion gives a package's target root: the
/// configured target override, or `~` when none is set.
pub open spec fn target_raw_spec(c: Config) -> Seq<char> {
    match c.target {
        Some(t) => t@,
        None => "~"@,
    }
}

impl Package {
    /// The string this package hands to expansion: its configured target
    /// override, or `~` when none is set.
    pub fn target_raw(&self) -> (r: &str)
        ensures
            r@ == target_raw_spec(self.config),
    {
        match &self.config.target {
            Some(t) => t.as_str(),
            None => "~",
        }
    }

    /// The expanded target root this package's links land under: exactly
    /// [`Package::target_raw`] — the configured target override, or `~`
    /// when none is set — expanded at the moment of the call so that it
    /// reflects the current environment.  When that string has nothing to
    /// expand it is returned as it stands; expansion succeeds then, and an
    /// error is always a failed lookup during expansion.
    pub fn target_root(&self) -> (r: Result<String, Error>)
        ensures
            no_expansion_chars(target_raw_spec(self.config)) ==> (r matches Ok(root) && root@
                == target_raw_spec(self.config)),
            r matches Err(e) ==> e matches Error::ShellExpansionError(_),
    {
        shell_expand(self.target_raw())
    }
}

} // verus!
