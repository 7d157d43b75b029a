//! Substring containment over character sequences, the notion every
//! filter in this crate matches by.

use vstd::prelude::*;

verus! {

/// The pattern `p` occurs in the subject `s` starting at position `i`.
pub open spec fn contains_at(s: Seq<char>, p: Seq<char>, i: int) -> bool {
    0 <= i && i + p.len() <= s.len() && s.subrange(i, i + p.len()) == p
}

/// Substring containment: the pattern occurs contiguously somewhere in the
/// subject. An empty pattern is contained in every subject.
pub open spec fn spec_contains(s: Seq<char>, p: Seq<char>) -> bool {
    exists|i: int| contains_at(s, p, i)
}

/// Relies on str::contains: it returns true exactly when the pattern
/// occurs as a contiguous substring of the subject.
#[verifier::external_body]
pub(crate) fn str_contains(s: &str, p: &str) -> (r: bool)
    ensures
        r == spec_contains(s@, p@),
{
    s.contains(p)
}

} // verus!
