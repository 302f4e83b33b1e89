//! Link enumeration: which walked entries of a package become links, and
//! where each link lands.
//!
//! The filesystem walk itself happens outside this crate; the caller hands
//! in the entry paths the walk yielded, in walk order, and gets back the
//! links of one pass.  Only immediate children of the package root become
//! links: the root itself and anything nested deeper are never yielded.
//! Exclusion of the walker's own ignore file, of the descriptor file and of
//! every configured hook script is decided here, on the entry's name
//! relative to the package root, taken verbatim; names containing glob
//! metacharacters are not given any pattern meaning.

use vstd::prelude::*;
use vstd::string::StrSliceExecFns;
use crate::text::{str_eq, str_has_prefix, str_contains_char, join_path, path_join};
use super::Package;
use super::config::{Config, script_names_spec};
use super::error::Error;

verus! {

/// The mathematical content of a link: its source entry path and its
/// computed target path.
pub ghost struct LinkView {
    pub source: Seq<char>,
    pub target: Seq<char>,
}

/// One link to create or remove: a source entry immediately under the
/// package root, and the absolute target path computed for it.
#[derive(Clone, Debug, PartialEq, Eq)]
pub struct Link {
    pub source_path: String,
    pub target_path: String,
}

impl View for Link {
    type V = LinkView;

    open spec fn view(&self) -> LinkView {
        LinkView { source: self.source_path@, target: self.target_path@ }
    }
}

/// True when `entry` lies strictly under `root`: it is `root`, then `/`,
/// then a non-empty remainder.
pub open spec fn rooted_under(entry: Seq<char>, root: Seq<char>) -> bool {
    entry.len() > root.len() + 1 && entry.subrange(0, root.len() as int) == root && entry[root.len() as int]
        == '/'
}

/// The part of `entry` after `root` and the separating `/`.
pub open spec fn relative_part(entry: Seq<char>, root: Seq<char>) -> Seq<char> {
    entry.subrange(root.len() as int + 1, entry.len() as int)
}

/// True when an entry of this relative name is kept out of the linked set:
/// the walker's own ignore file, the package descriptor, and every filename
/// a configured hook references as its script.
pub open spec fn excluded(name: Seq<char>, c: Config) -> bool {
    name == ".ignore"@ || name == ".scrubjay.toml"@ || script_names_spec(c).contains(name)
}

/// True when a relative name holds no path separator: such an entry is an
/// immediate child of the package root, at depth one, not something deeper.
pub open spec fn immediate(name: Seq<char>) -> bool {
    forall|i: int| 0 <= i < name.len() ==> name[i] != '/'
}

/// True when an entry of this path becomes a link of the package: it lies
/// under the package root as an immediate child, and its name is not
/// excluded.
pub open spec fn included(package_path: Seq<char>, c: Config, entry: Seq<char>) -> bool {
    rooted_under(entry, package_path) && immediate(relative_part(entry, package_path)) && !excluded(
        relative_part(entry, package_path),
        c,
    )
}

/// True when an entry of this relative name is kept out of the linked set.
pub fn is_excluded(name: &str, config: &Config) -> (r: bool)
    ensures
        r == excluded(name@, *config),
{
    if str_eq(name, ".ignore") {
        return true;
    }
    if str_eq(name, ".scrubjay.toml") {
        return true;
    }
    let scripts = config.script_names();
    let ghost names = script_names_spec(*config);
    let mut i: usize = 0;
    while i < scripts.len()
        invariant
            i <= scripts.len(),
            names == script_names_spec(*config),
            scripts@.map_values(|s: String| s@) == names,
            forall|j: int| 0 <= j < i ==> names[j] != name@,
        decreases scripts.len() - i,
    {
        if str_eq(name, scripts[i].as_str()) {
            proof {
                assert(names.len() == scripts@.len());
                assert(names[i as int] == name@);
                assert(names.contains(name@));
            }
            return true;
        }
        i = i + 1;
    }
    assert(!names.contains(name@));
    false
}

/// The link one walked entry yields, if any.  The package root itself,
/// entries nested below depth one and excluded names yield nothing; an
/// entry not rooted under the package path yields a
/// `PathRelativizationError`; every other entry yields the link whose
/// target is the target root joined with the entry's relative name.
pub fn link_for_entry(package: &Package, entry_path: &str, target_root: &str) -> (r: Option<
    Result<Link, Error>,
>)
    ensures
        entry_path@ == package.path@ ==> r is None,
        entry_path@ != package.path@ && !rooted_under(entry_path@, package.path@) ==> (r matches
            Some(res) && res matches Err(Error::PathRelativizationError(p)) && p@ == entry_path@),
        rooted_under(entry_path@, package.path@) && !immediate(
            relative_part(entry_path@, package.path@),
        ) ==> r is None,
        rooted_under(entry_path@, package.path@) && excluded(
            relative_part(entry_path@, package.path@),
            package.config,
        ) ==> r is None,
        included(package.path@, package.config, entry_path@) ==> (r matches Some(res)
            && res matches Ok(link) && link@.source == entry_path@ && link@.target == path_join(
            target_root@,
            relative_part(entry_path@, package.path@),
        )),
{
    if str_eq(entry_path, package.path.as_str()) {
        return None;
    }
    let plen = package.path.as_str().unicode_len();
    let elen = entry_path.unicode_len();
    let rooted = elen > plen && elen - plen >= 2 && str_has_prefix(
        entry_path,
        package.path.as_str(),
    ) && entry_path.get_char(plen) == '/';
    if !rooted {
        return Some(Err(Error::PathRelativizationError(entry_path.to_owned())));
    }
    let name = entry_path.substring_char(plen + 1, elen);
    if str_contains_char(name, '/') {
        return None;
    }
    if is_excluded(name, &package.config) {
        None
    } else {
        Some(
            Ok(
                Link {
                    source_path: entry_path.to_owned(),
                    target_path: join_path(target_root, name),
                },
            ),
        )
    }
}

/// The links one pass yields for already-walked entry paths, in walk order:
/// the package root, entries nested below depth one and excluded names are
/// dropped, every other rooted entry becomes the link from it to the target
/// root joined with its relative name.
pub open spec fn link_plan(
    package_path: Seq<char>,
    c: Config,
    target_root: Seq<char>,
    entries: Seq<Seq<char>>,
) -> Seq<LinkView>
    decreases entries.len(),
{
    if entries.len() == 0 {
        Seq::empty()
    } else {
        let front = link_plan(package_path, c, target_root, entries.drop_last());
        let e = entries.last();
        if included(package_path, c, e) {
            front.push(
                LinkView { source: e, target: path_join(target_root, relative_part(e, package_path)) },
            )
        } else {
            front
        }
    }
}

/// True when every walked entry is either the package root itself or lies
/// under it, as a filesystem walk of the root guarantees.
pub open spec fn all_entries_placed(package_path: Seq<char>, entries: Seq<Seq<char>>) -> bool {
    forall|i: int|
        0 <= i < entries.len() ==> entries[i] == package_path || rooted_under(
            entries[i],
            package_path,
        )
}

impl Package {
    /// The links of one pass over this package, for the entry paths a
    /// filesystem walk of the package root yielded, in walk order.  Fails
    /// with `PathRelativizationError` exactly when some entry is neither
    /// the root nor rooted under it.
    pub fn links_for_entries(&self, entries: &Vec<String>, target_root: &str) -> (r: Result<
        Vec<Link>,
        Error,
    >)
        ensures
            r matches Ok(v) ==> v@.map_values(|l: Link| l@) == link_plan(
                self.path@,
                self.config,
                target_root@,
                entries@.map_values(|s: String| s@),
            ) && all_entries_placed(self.path@, entries@.map_values(|s: String| s@)),
            r matches Err(e) ==> (e matches Error::PathRelativizationError(p) && !all_entries_placed(
                self.path@,
                entries@.map_values(|s: String| s@),
            ) && (exists|i: int|
                0 <= i < entries@.len() && entries@[i]@ == p@ && entries@[i]@ != self.path@
                    && !rooted_under(entries@[i]@, self.path@))),
    {
        let ghost eview = entries@.map_values(|s: String| s@);
        let mut links: Vec<Link> = Vec::new();
        let mut i: usize = 0;
        while i < entries.len()
            invariant
                i <= entries.len(),
                eview == entries@.map_values(|s: String| s@),
                links@.map_values(|l: Link| l@) == link_plan(
                    self.path@,
                    self.config,
                    target_root@,
                    eview.subrange(0, i as int),
                ),
                forall|j: int|
                    0 <= j < i ==> eview[j] == self.path@ || rooted_under(eview[j], self.path@),
            decreases entries.len() - i,
        {
            proof {
                assert(eview.subrange(0, i + 1).drop_last() =~= eview.subrange(0, i as int));
                assert(eview.subrange(0, i + 1).last() == eview[i as int]);
            }
            match link_for_entry(self, entries[i].as_str(), target_root) {
                None => {},
                Some(res) => match res {
                    Ok(link) => {
                        links.push(link);
                    },
                    Err(e) => {
                        return Err(e);
                    },
                },
            }
            i = i + 1;
        }
        proof {
            assert(eview.subrange(0, entries@.len() as int) =~= eview);
        }
        Ok(links)
    }
}

/// The number of links in a plan whose source is `s`.
pub open spec fn source_count(plan: Seq<LinkView>, s: Seq<char>) -> nat
    decreases plan.len(),
{
    if plan.len() == 0 {
        0
    } else {
        source_count(plan.drop_last(), s) + if plan.last().source == s {
            1nat
        } else {
            0nat
        }
    }
}

/// The number of entries equal to `s`.
pub open spec fn occurrences(entries: Seq<Seq<char>>, s: Seq<char>) -> nat
    decreases entries.len(),
{
    if entries.len() == 0 {
        0
    } else {
        occurrences(entries.drop_last(), s) + if entries.last() == s {
            1nat
        } else {
            0nat
        }
    }
}

/// A plan holds `s` as a source as often as the entries hold `s`, when `s`
/// is an included entry path, and never otherwise.
proof fn lemma_plan_source_count(
    package_path: Seq<char>,
    c: Config,
    target_root: Seq<char>,
    entries: Seq<Seq<char>>,
    s: Seq<char>,
)
    ensures
        source_count(link_plan(package_path, c, target_root, entries), s) == if included(
            package_path,
            c,
            s,
        ) {
            occurrences(entries, s)
        } else {
            0nat
        },
    decreases entries.len(),
{
    if entries.len() == 0 {
    } else {
        lemma_plan_source_count(package_path, c, target_root, entries.drop_last(), s);
        let front = link_plan(package_path, c, target_root, entries.drop_last());
        let e = entries.last();
        if included(package_path, c, e) {
            let pushed = front.push(
                LinkView { source: e, target: path_join(target_root, relative_part(e, package_path)) },
            );
            assert(pushed.drop_last() =~= front);
        }
    }
}

/// Entries that never equal `s` hold no occurrence of `s`.
proof fn lemma_occurrences_absent(entries: Seq<Seq<char>>, s: Seq<char>)
    requires
        forall|j: int| 0 <= j < entries.len() ==> entries[j] != s,
    ensures
        occurrences(entries, s) == 0,
    decreases entries.len(),
{
    if entries.len() == 0 {
    } else {
        lemma_occurrences_absent(entries.drop_last(), s);
    }
}

/// Pairwise distinct entries hold exactly one occurrence of any entry among
/// them.
proof fn lemma_occurrences_unique(entries: Seq<Seq<char>>, s: Seq<char>, i: int)
    requires
        0 <= i < entries.len(),
        entries[i] == s,
        forall|j: int, k: int| 0 <= j < k < entries.len() ==> entries[j] != entries[k],
    ensures
        occurrences(entries, s) == 1,
    decreases entries.len(),
{
    if i == entries.len() - 1 {
        assert(forall|j: int| 0 <= j < entries.drop_last().len() ==> entries.drop_last()[j] != s);
        lemma_occurrences_absent(entries.drop_last(), s);
    } else {
        lemma_occurrences_unique(entries.drop_last(), s, i);
    }
}

/// Every link of a plan comes from an included entry, and its target is the
/// target root joined with that entry's relative name.
proof fn lemma_plan_well_formed(
    package_path: Seq<char>,
    c: Config,
    target_root: Seq<char>,
    entries: Seq<Seq<char>>,
)
    ensures
        forall|n: int|
            0 <= n < link_plan(package_path, c, target_root, entries).len() ==> included(
                package_path,
                c,
                #[trigger] link_plan(package_path, c, target_root, entries)[n].source,
            ) && link_plan(package_path, c, target_root, entries)[n].target == path_join(
                target_root,
                relative_part(link_plan(package_path, c, target_root, entries)[n].source, package_path),
            ),
    decreases entries.len(),
{
    if entries.len() == 0 {
    } else {
        lemma_plan_well_formed(package_path, c, target_root, entries.drop_last());
        let plan = link_plan(package_path, c, target_root, entries);
        let front = link_plan(package_path, c, target_root, entries.drop_last());
        let e = entries.last();
        if included(package_path, c, e) {
            assert forall|n: int|
                0 <= n < plan.len() implies included(package_path, c, #[trigger] plan[n].source)
                && plan[n].target == path_join(
                target_root,
                relative_part(plan[n].source, package_path),
            ) by {
                if n < front.len() {
                    assert(plan[n] == front[n]);
                    assert(included(package_path, c, front[n].source));
                } else {
                    assert(plan[n].source == e);
                }
            }
        }
    }
}

/// A plan that holds a source at all holds it at some index.
proof fn lemma_source_count_exists(plan: Seq<LinkView>, s: Seq<char>)
    requires
        source_count(plan, s) > 0,
    ensures
        exists|n: int| 0 <= n < plan.len() && plan[n].source == s,
    decreases plan.len(),
{
    if plan.len() == 0 {
    } else {
        if plan.last().source == s {
            assert(plan[plan.len() - 1].source == s);
        } else {
            lemma_source_count_exists(plan.drop_last(), s);
            let n = choose|n: int| 0 <= n < plan.drop_last().len() && plan.drop_last()[n].source == s;
            assert(plan[n].source == s);
        }
    }
}

/// LAW: enumerating links over pairwise distinct walked entries includes
/// every entry that is neither the package root nor excluded exactly once,
/// as the link whose target is the target root joined with the entry's name
/// relative to the package root.
pub proof fn lemma_enumeration_exact(
    package_path: Seq<char>,
    c: Config,
    target_root: Seq<char>,
    entries: Seq<Seq<char>>,
    i: int,
)
    requires
        0 <= i < entries.len(),
        included(package_path, c, entries[i]),
        forall|j: int, k: int| 0 <= j < k < entries.len() ==> entries[j] != entries[k],
    ensures
        source_count(link_plan(package_path, c, target_root, entries), entries[i]) == 1,
        exists|n: int|
            0 <= n < link_plan(package_path, c, target_root, entries).len() && link_plan(
                package_path,
                c,
                target_root,
                entries,
            )[n].source == entries[i],
        forall|n: int|
            0 <= n < link_plan(package_path, c, target_root, entries).len() && #[trigger] link_plan(
                package_path,
                c,
                target_root,
                entries,
            )[n].source == entries[i] ==> link_plan(package_path, c, target_root, entries)[n].target
                == path_join(target_root, relative_part(entries[i], package_path)),
{
    lemma_plan_source_count(package_path, c, target_root, entries, entries[i]);
    lemma_occurrences_unique(entries, entries[i], i);
    lemma_source_count_exists(link_plan(package_path, c, target_root, entries), entries[i]);
    lemma_plan_well_formed(package_path, c, target_root, entries);
}

} // verus!
