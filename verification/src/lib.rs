//! Summing a list of 32-bit integers in two halves.
//!
//! The list is split at its middle into two partitions, each partition is
//! summed on its own, and the two partial sums are added. Each step is a
//! function of its own, so that a caller may run the two partial sums on two
//! workers; [`sum`] runs them one after the other.
pub mod model;
pub mod partition;
pub mod worker;

use vstd::prelude::*;
use crate::model::{left_part, right_part, total, wrapped};
use crate::model::lemma_wrapped_absorbs;
use crate::partition::{lemma_parts_total, split};
use crate::worker::{combine, joined, partial_sum, WorkerFault};

verus! {

/// What splitting, summing each partition and joining gives for `s`.
pub open spec fn sum_by_halves(s: Seq<i32>) -> i32 {
    wrapped(wrapped(total(left_part(s))) + wrapped(total(right_part(s))))
}

/// The sum of all elements of `values`, computed by halves: the list is split
/// at its middle, each partition is summed, and the two partial sums are
/// added. The empty list gives 0.
///
/// Additions are 32-bit wrapping additions, so the result is the exact sum
/// reduced modulo 2^32 into the range of `i32`, and the exact sum itself
/// wherever that fits.
pub fn sum(values: Vec<i32>) -> (result: i32)
    ensures
        result == wrapped(total(values@)),
        result == sum_by_halves(values@),
        i32::MIN <= total(values@) <= i32::MAX ==> result == total(values@),
{
    let (left, right) = split(&values);
    let left_sum: i32 = partial_sum(&left);
    let right_sum: i32 = partial_sum(&right);
    proof {
        lemma_sum_by_halves(values@);
    }
    combine(left_sum, right_sum)
}

/// Summing by halves gives the wrapped sum of the whole list: no element is
/// counted twice and none is left out.
pub proof fn lemma_sum_by_halves(s: Seq<i32>)
    ensures
        sum_by_halves(s) == wrapped(total(s)),
        i32::MIN <= total(s) <= i32::MAX ==> sum_by_halves(s) == total(s),
{
    lemma_parts_total(s);
    lemma_wrapped_absorbs(total(left_part(s)), total(right_part(s)));
}

/// Two workers that each deliver the sum of their partition are joined to
/// the same result that [`sum`] returns.
pub proof fn lemma_workers_agree_with_sum(s: Seq<i32>)
    ensures
        joined(Some(wrapped(total(left_part(s)))), Some(wrapped(total(right_part(s)))))
            == Ok::<i32, WorkerFault>(wrapped(total(s))),
{
    lemma_sum_by_halves(s);
}

/// Two lists with the same elements in the same order have the same sum,
/// however often and in whatever order the two partitions are summed.
pub proof fn lemma_sum_repeatable(a: Seq<i32>, b: Seq<i32>)
    requires
        a.len() == b.len(),
        forall|i: int| 0 <= i < a.len() ==> a[i] == b[i],
    ensures
        sum_by_halves(a) == sum_by_halves(b),
        wrapped(total(a)) == wrapped(total(b)),
{
    assert(a =~= b);
}

} // verus!
