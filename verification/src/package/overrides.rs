//! Building the walker's override rule set through the `ignore` crate.
//!
//! The rule set excludes the walker's own ignore file, the package
//! descriptor and every configured hook script from the linked set.  Each
//! rule is one gitignore-style line handed to the crate's override builder,
//! negated with a leading `!` so that its matches are dropped rather than
//! whitelisted.  The lines are handed over verbatim: a name containing glob
//! metacharacters is not escaped, and a name the builder's line handling
//! would mangle (one ending in whitespace) is rejected outright.

use vstd::prelude::*;
use vstd::string::StrSliceExecFns;
use vstd::string::StringExecFns;
use super::Package;
use super::config::{Config, script_names_spec, ignore_filename, descriptor_filename};
use super::error::Error;

verus! {

#[verifier::external_type_specification]
#[verifier::external_body]
pub struct ExOverrideBuilder(ignore::overrides::OverrideBuilder);

#[verifier::external_type_specification]
#[verifier::external_body]
pub struct ExOverride(ignore::overrides::Override);

/// The glob lines an override builder has accepted so far, in order.
pub uninterp spec fn builder_globs(b: ignore::overrides::OverrideBuilder) -> Seq<Seq<char>>;

/// The glob lines an override matcher was built from, in order.
pub uninterp spec fn override_globs(o: ignore::overrides::Override) -> Seq<Seq<char>>;

/// Whether the override builder's glob parser accepts this line.  Parsing
/// depends on the line alone: the options that could sway it are fixed by
/// the builder's constructor and never exposed.
pub uninterp spec fn glob_accepted(line: Seq<char>) -> bool;

/// Whether the override builder compiles this sequence of accepted glob
/// lines into a matcher.  Every builder here is made by the constructor and
/// only ever handed lines, so success is a function of the lines alone.
pub uninterp spec fn globs_buildable(lines: Seq<Seq<char>>) -> bool;

/// The characters a gitignore line's trailing trim removes: Unicode
/// whitespace.
pub open spec fn trimmable(c: char) -> bool {
    c == ' ' || c == '\t' || c == '\n' || c == '\r' || (c as u32) == 0x0b || (c as u32) == 0x0c
        || (c as u32) == 0x85 || (c as u32) == 0xa0 || (c as u32) == 0x1680 || (0x2000 <= (
    c as u32) && (c as u32) <= 0x200a) || (c as u32) == 0x2028 || (c as u32) == 0x2029 || (
    c as u32) == 0x202f || (c as u32) == 0x205f || (c as u32) == 0x3000
}

/// True when the trailing trim of a gitignore line would remove `c`.
fn is_trimmable(c: char) -> (r: bool)
    ensures
        r == trimmable(c),
{
    c == ' ' || c == '\t' || c == '\n' || c == '\r' || (c as u32) == 0x0b || (c as u32) == 0x0c
        || (c as u32) == 0x85 || (c as u32) == 0xa0 || (c as u32) == 0x1680 || ((c as u32) >= 0x2000
        && (c as u32) <= 0x200a) || (c as u32) == 0x2028 || (c as u32) == 0x2029 || (c as u32)
        == 0x202f || (c as u32) == 0x205f || (c as u32) == 0x3000
}

/// True when a name survives the builder's line handling untouched: it does
/// not end in a character the trailing trim would remove.
pub open spec fn name_untrimmed(name: Seq<char>) -> bool {
    name.len() > 0 ==> !trimmable(name[name.len() - 1])
}

/// True when one planned glob line goes through the builder whole: it is
/// not trimmed, and its glob parses.
pub open spec fn line_ok(line: Seq<char>) -> bool {
    line.len() > 0 && !trimmable(line[line.len() - 1]) && glob_accepted(line)
}

/// Relies on `ignore::overrides::OverrideBuilder::new`: a fresh builder
/// whose matches are relative to the given root, with no globs yet.
#[verifier::external_body]
fn override_builder_new(path: &str) -> (b: ignore::overrides::OverrideBuilder)
    ensures
        builder_globs(b) == Seq::<Seq<char>>::empty(),
{
    ignore::overrides::OverrideBuilder::new(path)
}

/// Relies on `ignore::overrides::OverrideBuilder::add`: appends one glob
/// line with gitignore line semantics.  The line handed in starts with `!`
/// and does not end in trimmable whitespace, so it is neither skipped as a
/// comment or blank line nor trimmed: it is accepted verbatim exactly when
/// its glob parses, and rejected with the builder unchanged otherwise.
#[verifier::external_body]
fn override_builder_add(b: &mut ignore::overrides::OverrideBuilder, glob: &str) -> (r: Result<
    (),
    Error,
>)
    requires
        glob@.len() > 0,
        glob@[0] == '!',
        !trimmable(glob@[glob@.len() - 1]),
    ensures
        r is Ok <==> glob_accepted(glob@),
        r is Ok ==> builder_globs(*final(b)) == builder_globs(*old(b)).push(glob@),
        r matches Err(e) ==> e matches Error::OverrideBuildError(_),
        r is Err ==> builder_globs(*final(b)) == builder_globs(*old(b)),
{
    match b.add(glob) {
        Ok(_) => Ok(()),
        Err(e) => Err(Error::OverrideBuildError(e.to_string())),
    }
}

/// Relies on `ignore::overrides::OverrideBuilder::build`: compiles the
/// accepted glob lines into an override matcher over those same lines,
/// succeeding exactly when the set of lines compiles.
#[verifier::external_body]
fn override_builder_build(b: &ignore::overrides::OverrideBuilder) -> (r: Result<
    ignore::overrides::Override,
    Error,
>)
    ensures
        r is Ok <==> globs_buildable(builder_globs(*b)),
        r matches Ok(o) ==> override_globs(o) == builder_globs(*b),
        r matches Err(e) ==> e matches Error::OverrideBuildError(_),
{
    match b.build() {
        Ok(o) => Ok(o),
        Err(e) => Err(Error::OverrideBuildError(e.to_string())),
    }
}

/// One planned line goes through whole exactly when its name is untrimmed
/// and its glob parses.
proof fn lemma_line_ok_of_name(name: Seq<char>)
    ensures
        line_ok("!"@ + name) <==> (name_untrimmed(name) && glob_accepted("!"@ + name)),
{
    reveal_strlit("!");
    assert("!"@.len() == 1);
    let line = "!"@ + name;
    assert(line[line.len() - 1] == if name.len() > 0 {
        name[name.len() - 1]
    } else {
        '!'
    });
    assert(!trimmable('!'));
}

/// Adds one exclusion to the builder: the name, negated with a leading `!`.
/// Succeeds exactly when the name does not end in whitespace — such a name
/// would be silently mangled by the builder's line handling and is rejected
/// instead — and the negated line's glob parses.
fn add_ignore_glob(builder: &mut ignore::overrides::OverrideBuilder, glob: &str) -> (r: Result<
    (),
    Error,
>)
    ensures
        r is Ok <==> (name_untrimmed(glob@) && glob_accepted("!"@ + glob@)),
        r is Ok ==> builder_globs(*final(builder)) == builder_globs(*old(builder)).push(
            "!"@ + glob@,
        ),
        r matches Err(e) ==> (e matches Error::OverrideBuildError(_) && builder_globs(
            *final(builder),
        ) == builder_globs(*old(builder))),
{
    let glob_len = glob.unicode_len();
    if glob_len > 0 && is_trimmable(glob.get_char(glob_len - 1)) {
        return Err(Error::OverrideBuildError("exclusion pattern ends in whitespace".to_owned()));
    }
    let mut line = "!".to_owned();
    line.append(glob);
    proof {
        reveal_strlit("!");
        assert("!"@.len() == 1);
        assert(line@[0] == '!');
        assert(line@[line@.len() - 1] == if glob@.len() > 0 {
            glob@[glob@.len() - 1]
        } else {
            '!'
        });
        assert(!trimmable('!'));
    }
    override_builder_add(builder, line.as_str())
}

/// The override rule set of a package: the walker's ignore file, the
/// descriptor file, and every configured hook script, in that order, each
/// as a negated glob line.
pub open spec fn override_glob_plan(c: Config) -> Seq<Seq<char>> {
    seq!["!"@ + ".ignore"@, "!"@ + ".scrubjay.toml"@] + script_names_spec(c).map_values(
        |n: Seq<char>| "!"@ + n,
    )
}

/// True when the whole planned rule set goes through the builder: every
/// planned line is left whole and its glob parses, and the set of lines
/// compiles into a matcher.
pub open spec fn plan_buildable(c: Config) -> bool {
    (forall|k: int|
        0 <= k < override_glob_plan(c).len() ==> line_ok(#[trigger] override_glob_plan(c)[k]))
        && globs_buildable(override_glob_plan(c))
}

impl Package {
    /// The override rule set for walking this package's root, built for the
    /// `ignore` crate's walker: every immediate entry is a candidate except
    /// the walker's ignore file, the descriptor file and every configured
    /// hook script.  Succeeds exactly when every planned pattern goes
    /// through the builder — no name ends in whitespace, every negated line
    /// parses as a glob, and the set compiles — and fails with
    /// `OverrideBuildError` otherwise.
    pub fn build_overrides(&self) -> (r: Result<ignore::overrides::Override, Error>)
        ensures
            r is Ok <==> plan_buildable(self.config),
            r matches Ok(o) ==> override_globs(o) == override_glob_plan(self.config),
            r matches Err(e) ==> e matches Error::OverrideBuildError(_),
    {
        let ghost plan = override_glob_plan(self.config);
        let ghost names = script_names_spec(self.config);
        proof {
            assert(plan.len() == 2 + names.len());
            assert(plan[0] == "!"@ + ".ignore"@);
            assert(plan[1] == "!"@ + ".scrubjay.toml"@);
            assert(forall|j: int|
                0 <= j < names.len() ==> #[trigger] plan[2 + j] == "!"@ + names[j]);
        }
        let mut builder = override_builder_new(self.path.as_str());
        match add_ignore_glob(&mut builder, ignore_filename()) {
            Err(e) => {
                proof {
                    lemma_line_ok_of_name(".ignore"@);
                    assert(!line_ok(plan[0]));
                }
                return Err(e);
            },
            Ok(()) => {
                proof {
                    lemma_line_ok_of_name(".ignore"@);
                }
            },
        }
        match add_ignore_glob(&mut builder, descriptor_filename()) {
            Err(e) => {
                proof {
                    lemma_line_ok_of_name(".scrubjay.toml"@);
                    assert(!line_ok(plan[1]));
                }
                return Err(e);
            },
            Ok(()) => {
                proof {
                    lemma_line_ok_of_name(".scrubjay.toml"@);
                }
            },
        }
        let ghost head: Seq<Seq<char>> = seq!["!"@ + ".ignore"@, "!"@ + ".scrubjay.toml"@];
        proof {
            assert(builder_globs(builder) =~= head);
        }
        let scripts = self.config.script_names();
        let mut i: usize = 0;
        while i < scripts.len()
            invariant
                i <= scripts.len(),
                plan == override_glob_plan(self.config),
                names == script_names_spec(self.config),
                scripts@.map_values(|s: String| s@) == names,
                head == seq!["!"@ + ".ignore"@, "!"@ + ".scrubjay.toml"@],
                plan.len() == 2 + names.len(),
                forall|j: int| 0 <= j < names.len() ==> #[trigger] plan[2 + j] == "!"@ + names[j],
                forall|k: int| 0 <= k < 2 + i ==> line_ok(#[trigger] plan[k]),
                builder_globs(builder) == head + names.subrange(0, i as int).map_values(
                    |n: Seq<char>| "!"@ + n,
                ),
            decreases scripts.len() - i,
        {
            match add_ignore_glob(&mut builder, scripts[i].as_str()) {
                Err(e) => {
                    proof {
                        lemma_line_ok_of_name(names[i as int]);
                        assert(!line_ok(plan[2 + i]));
                    }
                    return Err(e);
                },
                Ok(()) => {
                    proof {
                        lemma_line_ok_of_name(names[i as int]);
                        assert(line_ok(plan[2 + i]));
                    }
                },
            }
            proof {
                assert(names.subrange(0, i + 1).drop_last() =~= names.subrange(0, i as int));
                assert(names.subrange(0, i + 1).last() == names[i as int]);
                assert(names.subrange(0, i + 1).map_values(|n: Seq<char>| "!"@ + n)
                    =~= names.subrange(0, i as int).map_values(|n: Seq<char>| "!"@ + n).push(
                    "!"@ + names[i as int],
                ));
                assert(builder_globs(builder) =~= head + names.subrange(0, i + 1).map_values(
                    |n: Seq<char>| "!"@ + n,
                ));
            }
            i = i + 1;
        }
        proof {
            assert(names.subrange(0, names.len() as int) =~= names);
            assert(builder_globs(builder) =~= plan);
            assert(forall|k: int| 0 <= k < plan.len() ==> line_ok(#[trigger] plan[k]));
        }
        let built = override_builder_build(&builder);
        proof {
            if built is Ok {
                assert(plan_buildable(self.config));
            } else {
                assert(!globs_buildable(plan));
            }
        }
        built
    }
}

} // verus!
