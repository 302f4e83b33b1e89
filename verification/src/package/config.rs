//! The per-package configuration, read from an optional descriptor file in
//! the package root.  An absent descriptor yields the all-default
//! configuration; only a present but malformed one is an error, and that
//! error arises in the unverified layer that parses the file.

use vstd::prelude::*;

verus! {

/// The fixed name of the package descriptor file, relative to the package
/// root.
pub fn descriptor_filename() -> (r: &'static str)
    ensures
        r@ == ".scrubjay.toml"@,
{
    ".scrubjay.toml"
}

/// The fixed name of the walker's supplementary ignore file, relative to the
/// package root.
pub fn ignore_filename() -> (r: &'static str)
    ensures
        r@ == ".ignore"@,
{
    ".ignore"
}

/// One lifecycle hook.  At most one of `command` and `script` takes effect:
/// `command` runs through a shell, `script` names a file under the package
/// root that runs directly, and `command` wins when both are set.  A hook
/// with neither is a no-op.
#[derive(Clone, Debug, PartialEq, Eq)]
pub struct Hook {
    pub command: Option<String>,
    pub script: Option<String>,
}

impl Hook {
    /// The script filename of this hook, when one is configured.
    pub fn script_name(&self) -> (r: Option<&str>)
        ensures
            self.script matches Some(s) ==> r matches Some(n) && n@ == s@,
            self.script is None ==> r is None,
    {
        match &self.script {
            Some(s) => Some(s.as_str()),
            None => None,
        }
    }
}

/// The four lifecycle hooks a package may configure.
#[derive(Clone, Debug, PartialEq, Eq)]
pub struct Hooks {
    pub pre_install: Option<Hook>,
    pub post_install: Option<Hook>,
    pub pre_uninstall: Option<Hook>,
    pub post_uninstall: Option<Hook>,
}

/// A package's configuration: an optional override for the target root the
/// links land under, and the optional lifecycle hooks.
#[derive(Clone, Debug, PartialEq, Eq)]
pub struct Config {
    pub target: Option<String>,
    pub hooks: Option<Hooks>,
}

/// The script filename a hook contributes to the exclusion rules: its
/// `script` field, whether or not a `command` is also set.
pub open spec fn hook_script(hook: Option<Hook>) -> Seq<Seq<char>> {
    match hook {
        Some(h) => match h.script {
            Some(s) => seq![s@],
            None => Seq::empty(),
        },
        None => Seq::empty(),
    }
}

/// Every script filename referenced by a configured hook, in the fixed order
/// pre-install, post-install, pre-uninstall, post-uninstall.
pub open spec fn script_names_spec(c: Config) -> Seq<Seq<char>> {
    match c.hooks {
        Some(h) => hook_script(h.pre_install) + hook_script(h.post_install) + hook_script(
            h.pre_uninstall,
        ) + hook_script(h.post_uninstall),
        None => Seq::empty(),
    }
}

/// The all-default configuration: no target override and no hooks.
pub open spec fn default_spec() -> Config {
    Config { target: None, hooks: None }
}

impl Config {
    /// The configuration of a package whose descriptor file has already been
    /// read and parsed by the caller: the parsed value when the file exists,
    /// and the default configuration when it does not.
    pub fn from_dir(descriptor: Option<Config>) -> (c: Config)
        ensures
            descriptor matches Some(d) ==> c == d,
            descriptor is None ==> c == default_spec(),
    {
        match descriptor {
            Some(d) => d,
            None => Config { target: None, hooks: None },
        }
    }

    /// Every script filename referenced by a configured hook, in the fixed
    /// order pre-install, post-install, pre-uninstall, post-uninstall.
    pub fn script_names(&self) -> (r: Vec<String>)
        ensures
            r@.map_values(|s: String| s@) == script_names_spec(*self),
    {
        let mut r: Vec<String> = Vec::new();
        match &self.hooks {
            None => {},
            Some(hooks) => {
                if let Some(h) = &hooks.pre_install {
                    if let Some(s) = &h.script {
                        r.push(s.clone());
                    }
                }
                if let Some(h) = &hooks.post_install {
                    if let Some(s) = &h.script {
                        r.push(s.clone());
                    }
                }
                if let Some(h) = &hooks.pre_uninstall {
                    if let Some(s) = &h.script {
                        r.push(s.clone());
                    }
                }
                if let Some(h) = &hooks.post_uninstall {
                    if let Some(s) = &h.script {
                        r.push(s.clone());
                    }
                }
            },
        }
        proof {
            assert(r@.map_values(|s: String| s@) =~= script_names_spec(*self));
        }
        r
    }
}

impl Default for Config {
    /// The all-default configuration: no target override and no hooks.
    fn default() -> (c: Config)
        ensures
            c == default_spec(),
    {
        Config { target: None, hooks: None }
    }
}

} // verus!
