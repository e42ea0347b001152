//! Small helpers on text.

use vstd::prelude::*;
use vstd::string::StrSliceExecFns;

verus! {

/// Whether two pieces of text hold the same characters.
pub fn same_text(a: &str, b: &str) -> (same: bool)
    ensures
        same == (a@ == b@),
{
    let left = a.to_owned();
    let right = b.to_owned();
    left == right
}

/// The first `count` characters of `s`, or all of `s` when it has fewer.
pub open spec fn prefix_of(s: Seq<char>, count: nat) -> Seq<char> {
    if count < s.len() {
        s.take(count as int)
    } else {
        s
    }
}

/// Cuts `s` down to its first `index` characters. Counting is by character,
/// so the cut never falls inside one.
pub fn truncate_at_char_boundary(s: String, index: usize) -> (cut: String)
    ensures
        cut@ == prefix_of(s@, index as nat),
{
    let text = s.as_str();
    let len: usize = text.unicode_len();
    if index < len {
        let head = text.substring_char(0, index);
        head.to_owned()
    } else {
        s
    }
}

/// Whether `needle` stands in `haystack` from place `at` on.
pub open spec fn occurs_at(haystack: Seq<char>, needle: Seq<char>, at: int) -> bool {
    0 <= at && at + needle.len() <= haystack.len() && haystack.subrange(
        at,
        at + needle.len(),
    ) == needle
}

/// Whether `needle` stands somewhere in `haystack`.
pub open spec fn occurs_in(haystack: Seq<char>, needle: Seq<char>) -> bool {
    exists|at: int| occurs_at(haystack, needle, at)
}

/// Whether `needle` stands somewhere in `haystack`, character for
/// character. The empty text stands in every text.
pub fn contains_text(haystack: &str, needle: &str) -> (found: bool)
    ensures
        found == occurs_in(haystack@, needle@),
{
    let len: usize = haystack.unicode_len();
    let width: usize = needle.unicode_len();
    if width > len {
        proof {
            assert forall|at: int| !occurs_at(haystack@, needle@, at) by {}
        }
        return false;
    }
    let last: usize = len - width;
    let mut at: usize = 0;
    while at < last
        invariant
            at <= last,
            last == len - width,
            len == haystack@.len(),
            width == needle@.len(),
            forall|k: int| 0 <= k < at ==> !occurs_at(haystack@, needle@, k),
        decreases last - at,
    {
        if same_text(haystack.substring_char(at, at + width), needle) {
            proof {
                assert(occurs_at(haystack@, needle@, at as int));
            }
            return true;
        }
        at = at + 1;
    }
    if same_text(haystack.substring_char(last, len), needle) {
        proof {
            assert(occurs_at(haystack@, needle@, last as int));
        }
        return true;
    }
    proof {
        assert forall|k: int| !occurs_at(haystack@, needle@, k) by {}
    }
    false
}

} // verus!
