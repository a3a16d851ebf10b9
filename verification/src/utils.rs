//! Lengths that a wavetable can have: rounding a length to a power of two.
use vstd::prelude::*;
use crate::wt::is_power_of_two;

verus! {

/// The largest `x` whose next power of two is still a `usize`, which is
/// itself a power of two.
pub open spec fn top_power() -> int {
    usize::MAX / 2 + 1
}

/// Twice a power of two is a power of two.
pub proof fn lemma_double_power_of_two(p: nat)
    requires
        is_power_of_two(p),
    ensures
        is_power_of_two(2 * p),
{
    assert((2 * p) / 2 == p);
}

/// The smallest power of two that is greater than or equal to `x`, and zero
/// for zero.
pub fn next_pow_of_2(x: usize) -> (r: usize)
    requires
        x <= top_power(),
    ensures
        x == 0 ==> r == 0,
        x > 0 ==> is_power_of_two(r as nat) && x <= r < 2 * x,
{
    if x == 0 {
        return 0;
    }
    let mut p: usize = 1;
    while p < x
        invariant
            0 < x <= top_power(),
            is_power_of_two(p as nat),
            1 <= p < 2 * x,
        decreases 2 * x - p,
    {
        proof {
            lemma_double_power_of_two(p as nat);
        }
        p = p * 2;
    }
    p
}

/// The largest power of two that is less than or equal to `x`, and zero for
/// zero: the number of frames that a table cut from `x` frames can have.
pub fn prev_pow_of_2(x: usize) -> (r: usize)
    ensures
        x == 0 ==> r == 0,
        x > 0 ==> is_power_of_two(r as nat) && r <= x < 2 * r,
{
    if x == 0 {
        return 0;
    }
    let mut p: usize = 1;
    while p <= x / 2
        invariant
            0 < x,
            is_power_of_two(p as nat),
            1 <= p <= x,
        decreases x - p,
    {
        proof {
            lemma_double_power_of_two(p as nat);
        }
        p = p * 2;
    }
    p
}

} // verus!
