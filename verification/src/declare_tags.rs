//! Sequential tag assignment for a declared variant list.
//!
//! The union builder gives the `n` declared variants the tags `start`,
//! `start + 1`, …, `start + n - 1` in declaration order; with the
//! conventional `start` of one, tag zero stays reserved for the empty
//! word.

use vstd::prelude::*;

verus! {

/// Assign consecutive tags to `count` declared variants, beginning at
/// `start`: the variant at position `i` of the declaration receives tag
/// `start + i`.
pub fn declare_tags(start: u64, count: usize) -> (tags: Vec<u64>)
    requires
        start + count <= u64::MAX,
    ensures
        tags.len() == count,
        forall|i: int| 0 <= i < count ==> tags[i] == start + i,
{
    let mut tags: Vec<u64> = Vec::new();
    let mut i: usize = 0;
    while i < count
        invariant
            i <= count,
            tags.len() == i,
            start + count <= u64::MAX,
            forall|j: int| 0 <= j < i ==> tags[j] == start + j,
        decreases count - i,
    {
        tags.push(start + (i as u64));
        i = i + 1;
    }
    tags
}

} // verus!
