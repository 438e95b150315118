//! What one worker computes on its partition, and how two results are joined.
use vstd::prelude::*;
use crate::model::{total, wrapped};
use crate::model::{lemma_total_push, lemma_wrapped_absorbs, lemma_wrapping_add_is_wrapped};

verus! {

/// The sum of one partition, added up from the first element to the last in
/// 32-bit wrapping arithmetic. The result is the exact sum wherever that fits
/// in an `i32`, whether or not an intermediate sum does.
pub fn partial_sum(part: &Vec<i32>) -> (result: i32)
    ensures
        result == wrapped(total(part@)),
        i32::MIN <= total(part@) <= i32::MAX ==> result == total(part@),
{
    let mut acc: i32 = 0;
    let mut i: usize = 0;
    assert(part@.subrange(0, 0) =~= Seq::<i32>::empty());
    while i < part.len()
        invariant
            i <= part.len(),
            acc == wrapped(total(part@.subrange(0, i as int))),
        decreases part.len() - i,
    {
        let x: i32 = part[i];
        proof {
            let seen = part@.subrange(0, i as int);
            assert(part@.subrange(0, i + 1) =~= seen.push(x));
            lemma_total_push(seen, x);
            lemma_wrapped_absorbs(total(seen), x as int);
            lemma_wrapping_add_is_wrapped(acc, x);
        }
        acc = acc.wrapping_add(x);
        i = i + 1;
    }
    assert(part@.subrange(0, part@.len() as int) =~= part@);
    acc
}

/// Joins the results of the two workers: their sum in 32-bit wrapping
/// arithmetic.
pub fn combine(left: i32, right: i32) -> (result: i32)
    ensures
        result == wrapped(left + right),
        i32::MIN <= left + right <= i32::MAX ==> result == left + right,
{
    proof {
        lemma_wrapping_add_is_wrapped(left, right);
    }
    left.wrapping_add(right)
}

/// A worker ended without handing over a result.
#[derive(Clone, Copy, Debug, PartialEq, Eq, Structural)]
pub struct WorkerFault;

/// What joining gives for the outcomes of the two workers, where `None`
/// stands for a worker that ended without a result: the combined sum if both
/// delivered, and a fault otherwise.
pub open spec fn joined(left: Option<i32>, right: Option<i32>) -> Result<i32, WorkerFault> {
    match (left, right) {
        (Some(l), Some(r)) => Ok(wrapped(l + r)),
        _ => Err(WorkerFault),
    }
}

/// Joins the outcomes of the two workers. Both partial sums are needed for
/// the total: if either worker ended without a result the whole sum fails,
/// and no number is returned in its place.
pub fn join_workers(left: Option<i32>, right: Option<i32>) -> (result: Result<i32, WorkerFault>)
    ensures
        result == joined(left, right),
        result.is_ok() <==> left.is_some() && right.is_some(),
{
    match (left, right) {
        (Some(l), Some(r)) => Ok(combine(l, r)),
        _ => Err(WorkerFault),
    }
}

/// Joining does not depend on which worker's result is taken first.
pub proof fn lemma_combine_commutes(left: i32, right: i32)
    ensures
        wrapped(left + right) == wrapped(right + left),
{
}

/// The same holds of the outcomes, delivered or not.
pub proof fn lemma_join_commutes(left: Option<i32>, right: Option<i32>)
    ensures
        joined(left, right) == joined(right, left),
{
}

} // verus!
