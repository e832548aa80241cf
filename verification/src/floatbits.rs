//! Whole numbers out of the bit patterns of single-precision floats.
//!
//! A pattern has one sign bit, eight bits of exponent and twenty-three of
//! fraction. Where the exponent is neither 0 nor 255 the pattern stands
//! for the fraction, with a leading one, times two to the exponent less
//! 150.

use vstd::prelude::*;

verus! {

/// Two to the power of `n`.
pub open spec fn two_to(n: nat) -> nat
    decreases n,
{
    if n == 0 {
        1
    } else {
        2 * two_to((n - 1) as nat)
    }
}

/// The sign bit of a pattern.
pub open spec fn sign_of(bits: u32) -> int {
    bits as int / 0x8000_0000
}

/// The exponent field of a pattern.
pub open spec fn exponent_of(bits: u32) -> int {
    (bits as int / 0x80_0000) % 256
}

/// The fraction field of a pattern.
pub open spec fn fraction_of(bits: u32) -> int {
    bits as int % 0x80_0000
}

/// The whole number nearest to the float with pattern `bits` among those
/// that are no farther from zero, kept within the range of a signed
/// 32-bit number; 0 for a pattern that stands for no number.
pub open spec fn truncated(bits: u32) -> int {
    let e = exponent_of(bits);
    let f = fraction_of(bits);
    if e < 127 {
        0
    } else if e == 255 && f != 0 {
        0
    } else if e >= 158 {
        if sign_of(bits) == 1 {
            i32::MIN as int
        } else {
            i32::MAX as int
        }
    } else {
        let whole = ((0x80_0000 + f) * two_to((e - 127) as nat)) / 0x80_0000;
        if sign_of(bits) == 1 {
            -whole
        } else {
            whole
        }
    }
}

/// A higher power of two is no smaller.
pub proof fn lemma_two_to_grows(n: nat, m: nat)
    requires
        n <= m,
    ensures
        1 <= two_to(n) <= two_to(m),
    decreases m,
{
    if n < m {
        lemma_two_to_grows(n, (m - 1) as nat);
    } else if n > 0 {
        lemma_two_to_grows((n - 1) as nat, (n - 1) as nat);
    }
}

/// The thirtieth power of two is 1073741824, and the powers below it are
/// at most half of that.
pub proof fn lemma_two_to(n: nat)
    requires
        n <= 30,
    ensures
        1 <= two_to(n) <= 1073741824,
        n < 30 ==> two_to(n) <= 536870912,
{
    assert(two_to(30) == 1073741824 && two_to(29) == 536870912) by {
        reveal_with_fuel(two_to, 32);
    }
    if n < 30 {
        lemma_two_to_grows(n, 29);
    }
}

/// Two to the power of `n`, for `n` up to 30.
pub(crate) fn power_of_two(n: u32) -> (p: u64)
    requires
        n <= 30,
    ensures
        p == two_to(n as nat),
        1 <= p <= 1073741824,
{
    let mut p: u64 = 1;
    let mut i: u32 = 0;
    while i < n
        invariant
            i <= n <= 30,
            p == two_to(i as nat),
            1 <= p <= 1073741824,
        decreases n - i,
    {
        proof {
            lemma_two_to(i as nat);
        }
        p = p * 2;
        i = i + 1;
    }
    p
}

/// The whole part of the float with pattern `bits`, as a cast from float
/// to signed integer gives it.
pub fn truncate(bits: u32) -> (n: i32)
    ensures
        n == truncated(bits),
{
    let negative = bits / 0x8000_0000 == 1;
    let e: u32 = (bits / 0x80_0000) % 256;
    let f: u32 = bits % 0x80_0000;
    if e < 127 {
        0
    } else if e == 255 && f != 0 {
        0
    } else if e >= 158 {
        if negative {
            i32::MIN
        } else {
            i32::MAX
        }
    } else {
        let p = power_of_two(e - 127);
        assert((0x80_0000 + f) * p <= 0xff_ffff * 1073741824) by (nonlinear_arith)
            requires
                0 <= f < 0x80_0000,
                1 <= p <= 1073741824,
        ;
        let whole: u64 = ((0x80_0000 + f as u64) * p) / 0x80_0000;
        if negative {
            -(whole as i64) as i32
        } else {
            whole as i32
        }
    }
}

} // verus!
