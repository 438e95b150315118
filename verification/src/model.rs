//! The mathematical model: what a sum is, what a 32-bit addition keeps of it,
//! and how a sequence falls into its two partitions.
use vstd::prelude::*;

verus! {

/// The arithmetic sum of the elements of `s`, as an unbounded integer.
pub open spec fn total(s: Seq<i32>) -> int
    decreases s.len(),
{
    if s.len() == 0 {
        0
    } else {
        total(s.drop_last()) + s.last()
    }
}

/// The `i32` that is congruent to `n` modulo 2^32: what two's complement
/// addition keeps of the exact value `n`.
pub open spec fn wrapped(n: int) -> i32 {
    let m = n % 0x1_0000_0000;
    if m > i32::MAX {
        (m - 0x1_0000_0000) as i32
    } else {
        m as i32
    }
}

/// The index at which a sequence of `len` elements is split.
pub open spec fn split_index(len: nat) -> nat {
    len / 2
}

/// The left partition of `s`: the elements before the split index.
pub open spec fn left_part(s: Seq<i32>) -> Seq<i32> {
    s.subrange(0, split_index(s.len()) as int)
}

/// The right partition of `s`: the elements from the split index on.
pub open spec fn right_part(s: Seq<i32>) -> Seq<i32> {
    s.subrange(split_index(s.len()) as int, s.len() as int)
}

/// Wrapping an intermediate result does not change the wrapped sum.
pub proof fn lemma_wrapped_absorbs(a: int, b: int)
    ensures
        wrapped(wrapped(a) + b) == wrapped(a + b),
        wrapped(a + wrapped(b)) == wrapped(a + b),
        wrapped(wrapped(a) + wrapped(b)) == wrapped(a + b),
{
}

/// The wrapping addition of the machine is the wrapped exact sum.
pub proof fn lemma_wrapping_add_is_wrapped(x: i32, y: i32)
    ensures
        vstd::wrapping::i32_specs::wrapping_add(x, y) == wrapped(x + y),
{
}

/// Appending one element adds it to the sum.
pub proof fn lemma_total_push(s: Seq<i32>, x: i32)
    ensures
        total(s.push(x)) == total(s) + x,
{
    assert(s.push(x).drop_last() =~= s);
}

/// The sum of a concatenation is the sum of the sums.
pub proof fn lemma_total_concat(a: Seq<i32>, b: Seq<i32>)
    ensures
        total(a + b) == total(a) + total(b),
    decreases b.len(),
{
    if b.len() == 0 {
        assert(a + b =~= a);
    } else {
        lemma_total_concat(a, b.drop_last());
        assert((a + b).drop_last() =~= a + b.drop_last());
    }
}

} // verus!
