//! Questions about text that the library asks in several places.

use vstd::prelude::*;
use vstd::string::StrSliceExecFns;

verus! {

/// The `len` characters of `text` that start at `start`.
pub open spec fn window(text: Seq<char>, start: int, len: nat) -> Seq<char> {
    text.subrange(start, start + len)
}

/// Whether `needle` stands somewhere in `haystack`, character for character.
pub open spec fn occurs_in(needle: Seq<char>, haystack: Seq<char>) -> bool {
    exists|start: int|
        0 <= start && start + needle.len() <= haystack.len() && #[trigger] window(
            haystack,
            start,
            needle.len(),
        ) == needle
}

/// Whether two texts are the same.
pub fn same_text(left: &str, right: &str) -> (same: bool)
    ensures
        same == (left@ == right@),
{
    let left_owned = left.to_owned();
    let right_owned = right.to_owned();
    left_owned == right_owned
}

/// Whether `needle` stands in `haystack` at `start`.
fn stands_at(haystack: &str, needle: &str, start: usize, len: usize) -> (answer: bool)
    requires
        len == needle@.len(),
        start + len <= haystack@.len(),
        haystack@.len() <= usize::MAX,
    ensures
        answer == (window(haystack@, start as int, len as nat) == needle@),
{
    let mut matched: usize = 0;
    while matched < len
        invariant
            matched <= len,
            len == needle@.len(),
            start + len <= haystack@.len(),
            haystack@.len() <= usize::MAX,
            forall|j: int| 0 <= j < matched ==> haystack@[start + j] == needle@[j],
        decreases len - matched,
    {
        if haystack.get_char(start + matched) != needle.get_char(matched) {
            assert(window(haystack@, start as int, len as nat)[matched as int] != needle@[matched as int]);
            return false;
        }
        matched = matched + 1;
    }
    assert(window(haystack@, start as int, len as nat) =~= needle@);
    true
}

/// Whether `needle` stands somewhere in `haystack`.
pub fn contains_text(haystack: &str, needle: &str) -> (found: bool)
    ensures
        found == occurs_in(needle@, haystack@),
{
    let total: usize = haystack.unicode_len();
    let len: usize = needle.unicode_len();
    if len > total {
        return false;
    }
    if len == 0 {
        assert(window(haystack@, 0, 0) =~= needle@);
        return true;
    }
    let mut start: usize = 0;
    while start <= total - len
        invariant
            1 <= len <= total,
            total == haystack@.len(),
            len == needle@.len(),
            start <= total - len + 1,
            forall|earlier: int|
                0 <= earlier < start ==> #[trigger] window(haystack@, earlier, len as nat)
                    != needle@,
        decreases total - len + 1 - start,
    {
        if stands_at(haystack, needle, start, len) {
            return true;
        }
        start = start + 1;
    }
    false
}

} // verus!
