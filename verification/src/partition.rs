//! Splitting the input into the two partitions that the workers own.
use vstd::prelude::*;
use vstd::slice::{slice_subrange, slice_to_vec};
use crate::model::{left_part, right_part, split_index, total};
use crate::model::lemma_total_concat;

verus! {

/// The index at which a list of `len` elements is split: half of `len`,
/// rounded down.
pub fn split_point(len: usize) -> (mid: usize)
    ensures
        mid == split_index(len as nat),
        mid == len / 2,
        mid <= len,
{
    len / 2
}

/// Copies the two partitions of `values` into vectors of their own: the
/// elements before the split point, and those from it on. Neither copy shares
/// storage with `values` or with the other, so each can be handed to a worker.
pub fn split(values: &Vec<i32>) -> (parts: (Vec<i32>, Vec<i32>))
    ensures
        parts.0@ == left_part(values@),
        parts.1@ == right_part(values@),
        parts.0@.len() == values@.len() / 2,
        parts.0@.len() + parts.1@.len() == values@.len(),
        parts.0@ + parts.1@ == values@,
{
    let len: usize = values.len();
    let mid: usize = split_point(len);
    let all = values.as_slice();
    let left = slice_to_vec(slice_subrange(all, 0, mid));
    let right = slice_to_vec(slice_subrange(all, mid, len));
    proof {
        lemma_parts_cover(values@);
    }
    (left, right)
}

/// The two partitions are contiguous, do not overlap and leave nothing out:
/// the left one followed by the right one is the input itself.
pub proof fn lemma_parts_cover(s: Seq<i32>)
    ensures
        left_part(s).len() == s.len() / 2,
        left_part(s).len() + right_part(s).len() == s.len(),
        left_part(s) + right_part(s) == s,
        forall|i: int| 0 <= i < left_part(s).len() ==> left_part(s)[i] == s[i],
        forall|i: int|
            0 <= i < right_part(s).len() ==> right_part(s)[i] == s[left_part(s).len() + i],
{
    assert(left_part(s) + right_part(s) =~= s);
}

/// The partitions differ in length by at most one element, and the extra
/// element of an odd-length input goes to the right partition.
pub proof fn lemma_parts_balanced(s: Seq<i32>)
    ensures
        s.len() % 2 == 0 ==> right_part(s).len() == left_part(s).len(),
        s.len() % 2 == 1 ==> right_part(s).len() == left_part(s).len() + 1,
{
}

/// The sums of the two partitions add up to the sum of the whole input.
pub proof fn lemma_parts_total(s: Seq<i32>)
    ensures
        total(left_part(s)) + total(right_part(s)) == total(s),
{
    lemma_parts_cover(s);
    lemma_total_concat(left_part(s), right_part(s));
}

} // verus!
