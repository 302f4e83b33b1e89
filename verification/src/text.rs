//! String helpers: equality, prefix tests and joining, with contracts over
//! the character-sequence views of `&str` and `String`.

use vstd::prelude::*;
use vstd::string::StrSliceExecFns;
use vstd::string::StringExecFns;

verus! {

/// True when `text` equals `other`, character for character.
pub fn str_eq(text: &str, other: &str) -> (r: bool)
    ensures
        r == (text@ == other@),
{
    let text_len = text.unicode_len();
    let other_len = other.unicode_len();
    if text_len != other_len {
        return false;
    }
    let mut i: usize = 0;
    while i < text_len
        invariant
            i <= text_len,
            text_len == text@.len(),
            text_len == other@.len(),
            forall|j: int| 0 <= j < i ==> text@[j] == other@[j],
        decreases text_len - i,
    {
        if text.get_char(i) != other.get_char(i) {
            return false;
        }
        i = i + 1;
    }
    proof {
        assert(text@ =~= other@);
    }
    true
}

/// True when `text` starts with `prefix`.
pub open spec fn has_prefix(text: Seq<char>, prefix: Seq<char>) -> bool {
    text.len() >= prefix.len() && text.subrange(0, prefix.len() as int) == prefix
}

/// True when `text` starts with `prefix`, character for character.
pub fn str_has_prefix(text: &str, prefix: &str) -> (r: bool)
    ensures
        r == has_prefix(text@, prefix@),
{
    let text_len = text.unicode_len();
    let prefix_len = prefix.unicode_len();
    if text_len < prefix_len {
        assert(!has_prefix(text@, prefix@));
        return false;
    }
    let mut i: usize = 0;
    while i < prefix_len
        invariant
            i <= prefix_len,
            prefix_len <= text_len,
            text_len == text@.len(),
            prefix_len == prefix@.len(),
            forall|j: int| 0 <= j < i ==> text@[j] == prefix@[j],
        decreases prefix_len - i,
    {
        if text.get_char(i) != prefix.get_char(i) {
            assert(text@.subrange(0, prefix@.len() as int)[i as int] != prefix@[i as int]);
            return false;
        }
        i = i + 1;
    }
    proof {
        assert(text@.subrange(0, prefix@.len() as int) =~= prefix@);
    }
    true
}

/// True when `c` occurs somewhere in `text`.
pub fn str_contains_char(text: &str, c: char) -> (r: bool)
    ensures
        r == (exists|i: int| 0 <= i < text@.len() && text@[i] == c),
{
    let len = text.unicode_len();
    let mut i: usize = 0;
    while i < len
        invariant
            i <= len,
            len == text@.len(),
            forall|j: int| 0 <= j < i ==> text@[j] != c,
        decreases len - i,
    {
        if text.get_char(i) == c {
            return true;
        }
        i = i + 1;
    }
    false
}

/// The joining of a directory path and an entry name with a `/` separator.
pub open spec fn path_join(dir: Seq<char>, name: Seq<char>) -> Seq<char> {
    dir + "/"@ + name
}

/// Joins a directory path and an entry name with a `/` separator.
pub fn join_path(dir: &str, name: &str) -> (r: String)
    ensures
        r@ == path_join(dir@, name@),
{
    let mut out = dir.to_owned();
    out.append("/");
    out.append(name);
    out
}

} // verus!
