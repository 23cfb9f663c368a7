//! Saturating 32-bit arithmetic: byte counts that come from a device or a peer
//! clamp instead of overflowing.
use vstd::arithmetic::power2::{lemma2_to64, lemma_pow2_unfold, pow2};
use vstd::prelude::*;

verus! {

/// `x` clamped to the range of `u32`.
pub open spec fn sat32(x: int) -> u32 {
    if x < 0 {
        0
    } else if x > u32::MAX {
        u32::MAX
    } else {
        x as u32
    }
}

/// The larger of two integers.
pub open spec fn imax(a: int, b: int) -> int {
    if a >= b {
        a
    } else {
        b
    }
}

/// The smaller of two integers.
pub open spec fn imin(a: int, b: int) -> int {
    if a <= b {
        a
    } else {
        b
    }
}

/// `a * b`, clamped to `u32::MAX`.
pub fn saturating_mul(a: u32, b: u32) -> (product: u32)
    ensures
        product == sat32(a * b),
{
    assert(a * b >= 0) by (nonlinear_arith)
        requires
            a >= 0,
            b >= 0,
    ;
    match a.checked_mul(b) {
        Some(product) => product,
        None => u32::MAX,
    }
}

/// The largest power of two that is at most `v`, for a `v` of at least one.
pub open spec fn floor_pow2(v: nat) -> nat
    decreases v,
{
    if v < 2 {
        1
    } else {
        2 * floor_pow2(v / 2)
    }
}

/// Whether `v` is a power of two.
pub open spec fn is_pow2(v: nat) -> bool {
    exists|k: nat| v == #[trigger] pow2(k)
}

/// [`floor_pow2`] is a power of two, at most `v` and more than half of it.
pub proof fn floor_pow2_is_the_largest(v: nat)
    requires
        v > 0,
    ensures
        is_pow2(floor_pow2(v)),
        floor_pow2(v) <= v < 2 * floor_pow2(v),
    decreases v,
{
    if v < 2 {
        lemma2_to64();
        assert(floor_pow2(v) == pow2(0));
    } else {
        floor_pow2_is_the_largest(v / 2);
        let k = choose|k: nat| floor_pow2(v / 2) == #[trigger] pow2(k);
        lemma_pow2_unfold(k + 1);
        assert(floor_pow2(v) == pow2(k + 1));
    }
}

/// A power of two is its own largest power of two.
pub proof fn floor_pow2_of_power(k: nat)
    ensures
        pow2(k) > 0,
        floor_pow2(pow2(k)) == pow2(k),
    decreases k,
{
    lemma2_to64();
    if k > 0 {
        lemma_pow2_unfold(k);
        floor_pow2_of_power((k - 1) as nat);
    }
}

/// A larger number has no smaller largest power of two.
pub proof fn floor_pow2_grows(a: nat, b: nat)
    requires
        a <= b,
    ensures
        floor_pow2(a) <= floor_pow2(b),
    decreases b,
{
    if b >= 2 {
        floor_pow2_is_the_largest(b / 2);
        floor_pow2_grows(a / 2, b / 2);
    }
}

/// The largest power of two that is at most `v`.
pub fn floor_power_of_two(v: u32) -> (power: u32)
    requires
        v > 0,
    ensures
        power == floor_pow2(v as nat),
    decreases v,
{
    proof {
        floor_pow2_is_the_largest(v as nat);
    }
    if v < 2 {
        1
    } else {
        2 * floor_power_of_two(v / 2)
    }
}

/// The larger and the smaller of two numbers are those two, and a clamped number is itself
/// where it fits and the nearer end of the range where it does not.
pub proof fn extremes_are_the_two_numbers(a: int, b: int)
    ensures
        imax(a, b) >= a && imax(a, b) >= b,
        imin(a, b) <= a && imin(a, b) <= b,
        imax(a, b) + imin(a, b) == a + b,
        0 <= a <= 0xffff_ffff ==> sat32(a) == a,
        a < 0 ==> sat32(a) == 0,
        a > 0xffff_ffff ==> sat32(a) == 0xffff_ffffu32,
{
}

} // verus!
