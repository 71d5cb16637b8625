//! IEEE-754 binary64 scalars, carried as raw `u64` bit patterns.
//!
//! Arithmetic is delegated to the software IEEE-754 implementation in
//! `rustc_apfloat` (round to nearest, ties to even, as hardware doubles
//! round) through trusted wrappers; each wrapper's result is pinned to an
//! uninterpreted name, so that every caller's contract is exact up to
//! those names.  Purely structural operations on the bit pattern --
//! negation, absolute value, NaN and sign tests, and stepping to the
//! adjacent representable value -- are implemented here and verified
//! against exact bit-level specifications.
use vstd::prelude::*;
use rustc_apfloat::Float;
use rustc_apfloat::Round;
use rustc_apfloat::ieee::Double;

verus! {

pub const SIGN_MASK: u64 = 0x8000_0000_0000_0000;
pub const EXP_MASK: u64 = 0x7FF0_0000_0000_0000;
pub const FRAC_MASK: u64 = 0x000F_FFFF_FFFF_FFFF;
pub const POS_INF_BITS: u64 = 0x7FF0_0000_0000_0000;
pub const NEG_INF_BITS: u64 = 0xFFF0_0000_0000_0000;
pub const POS_ZERO_BITS: u64 = 0x0000_0000_0000_0000;
pub const NEG_ZERO_BITS: u64 = 0x8000_0000_0000_0000;
pub const ONE_BITS: u64 = 0x3FF0_0000_0000_0000;
pub const NEG_ONE_BITS: u64 = 0xBFF0_0000_0000_0000;
/// The bit pattern of the binary64 value nearest pi/2, the right edge of
/// the approximation domain.
pub const HALF_PI_BITS: u64 = 0x3FF9_21FB_5444_2D18;

/// Result of binary64 addition on the given bit patterns.
pub uninterp spec fn dadd(a: u64, b: u64) -> u64;

/// Result of binary64 subtraction on the given bit patterns.
pub uninterp spec fn dsub(a: u64, b: u64) -> u64;

/// Result of binary64 multiplication on the given bit patterns.
pub uninterp spec fn dmul(a: u64, b: u64) -> u64;

/// Result of binary64 division on the given bit patterns.
pub uninterp spec fn ddiv(a: u64, b: u64) -> u64;

/// Result of fused multiply-add `a * b + c` on the given bit patterns,
/// rounded once.
pub uninterp spec fn dfma(a: u64, b: u64, c: u64) -> u64;

/// The binary64 value nearest the unsigned integer `n`.
pub uninterp spec fn d_of_uint(n: u64) -> u64;

/// Whether binary64 `a` compares strictly below `b` (false when either
/// operand is NaN).
pub uninterp spec fn dlt(a: u64, b: u64) -> bool;

/// Whether binary64 `a` compares strictly above `b` (false when either
/// operand is NaN).
pub uninterp spec fn dgt(a: u64, b: u64) -> bool;

/// Relies on `rustc_apfloat::ieee::Double::add_r` with round to nearest,
/// ties to even: IEEE-754 addition is a function of the operand bits alone.
#[verifier::external_body]
pub(crate) fn add_bits(a: u64, b: u64) -> (r: u64)
    ensures
        r == dadd(a, b),
{
    let x = Double::from_bits(a as u128);
    let y = Double::from_bits(b as u128);
    x.add_r(y, Round::NearestTiesToEven).value.to_bits() as u64
}

/// Relies on `rustc_apfloat::ieee::Double::sub_r` with round to nearest,
/// ties to even: IEEE-754 subtraction is a function of the operand bits
/// alone.
#[verifier::external_body]
pub(crate) fn sub_bits(a: u64, b: u64) -> (r: u64)
    ensures
        r == dsub(a, b),
{
    let x = Double::from_bits(a as u128);
    let y = Double::from_bits(b as u128);
    x.sub_r(y, Round::NearestTiesToEven).value.to_bits() as u64
}

/// Relies on `rustc_apfloat::ieee::Double::mul_r` with round to nearest,
/// ties to even: IEEE-754 multiplication is a function of the operand bits
/// alone.
#[verifier::external_body]
pub(crate) fn mul_bits(a: u64, b: u64) -> (r: u64)
    ensures
        r == dmul(a, b),
{
    let x = Double::from_bits(a as u128);
    let y = Double::from_bits(b as u128);
    x.mul_r(y, Round::NearestTiesToEven).value.to_bits() as u64
}

/// Relies on `rustc_apfloat::ieee::Double::div_r` with round to nearest,
/// ties to even: IEEE-754 division is a function of the operand bits alone.
#[verifier::external_body]
pub(crate) fn div_bits(a: u64, b: u64) -> (r: u64)
    ensures
        r == ddiv(a, b),
{
    let x = Double::from_bits(a as u128);
    let y = Double::from_bits(b as u128);
    x.div_r(y, Round::NearestTiesToEven).value.to_bits() as u64
}

/// Relies on `rustc_apfloat::ieee::Double::mul_add_r` with round to
/// nearest, ties to even: the fused multiply-add `a * b + c`, rounded
/// once, is a function of the operand bits alone.
#[verifier::external_body]
pub(crate) fn fma_bits(a: u64, b: u64, c: u64) -> (r: u64)
    ensures
        r == dfma(a, b, c),
{
    let x = Double::from_bits(a as u128);
    let y = Double::from_bits(b as u128);
    let z = Double::from_bits(c as u128);
    x.mul_add_r(y, z, Round::NearestTiesToEven).value.to_bits() as u64
}

/// Relies on `rustc_apfloat::ieee::Double::from_u128_r` with round to
/// nearest, ties to even: conversion of an unsigned integer to binary64,
/// as an `as` cast of an integer to a double rounds.
#[verifier::external_body]
pub(crate) fn uint_to_bits(n: u64) -> (r: u64)
    ensures
        r == d_of_uint(n),
{
    Double::from_u128_r(n as u128, Round::NearestTiesToEven).value.to_bits() as u64
}

/// Relies on `PartialOrd::lt` for `rustc_apfloat::ieee::Double`: the IEEE
/// partial order on binary64 values, under which any comparison with a
/// NaN is false.
#[verifier::external_body]
pub(crate) fn lt_bits(a: u64, b: u64) -> (r: bool)
    ensures
        r == dlt(a, b),
{
    Double::from_bits(a as u128) < Double::from_bits(b as u128)
}

/// Relies on `PartialOrd::gt` for `rustc_apfloat::ieee::Double`: the IEEE
/// partial order on binary64 values, under which any comparison with a
/// NaN is false.
#[verifier::external_body]
pub(crate) fn gt_bits(a: u64, b: u64) -> (r: bool)
    ensures
        r == dgt(a, b),
{
    Double::from_bits(a as u128) > Double::from_bits(b as u128)
}

/// A bit pattern encodes NaN when the exponent field is all ones and the
/// fraction field is non-zero.
pub open spec fn is_nan_bits(x: u64) -> bool {
    x & EXP_MASK == EXP_MASK && x & FRAC_MASK != 0
}

/// The sign bit of a binary64 bit pattern.
pub open spec fn sign_bit(x: u64) -> bool {
    x & SIGN_MASK != 0
}

/// Negation of a binary64 value: the sign bit flips and nothing else.
pub open spec fn spec_neg(x: u64) -> u64 {
    x ^ SIGN_MASK
}

/// Absolute value of a binary64 value: the sign bit clears and nothing
/// else.
pub open spec fn spec_abs(x: u64) -> u64 {
    x & (EXP_MASK | FRAC_MASK)
}

/// The next representable binary64 value toward positive infinity: NaNs
/// and positive infinity are fixed points; from negative zero the step
/// lands on the smallest positive subnormal; otherwise the bit pattern
/// moves one step up (positive values) or down (negative values).
pub open spec fn spec_next_up(x: u64) -> u64 {
    if is_nan_bits(x) || x == POS_INF_BITS {
        x
    } else if x == NEG_ZERO_BITS {
        1u64
    } else if !sign_bit(x) {
        (x + 1) as u64
    } else {
        (x - 1) as u64
    }
}

/// The next representable binary64 value toward negative infinity,
/// mirroring `spec_next_up`.
pub open spec fn spec_next_down(x: u64) -> u64 {
    if is_nan_bits(x) || x == NEG_INF_BITS {
        x
    } else if x == POS_ZERO_BITS {
        (NEG_ZERO_BITS + 1) as u64
    } else if sign_bit(x) {
        (x + 1) as u64
    } else {
        (x - 1) as u64
    }
}

pub fn is_nan(x: u64) -> (r: bool)
    ensures
        r == is_nan_bits(x),
{
    x & EXP_MASK == EXP_MASK && x & FRAC_MASK != 0
}

pub fn neg_bits(x: u64) -> (r: u64)
    ensures
        r == spec_neg(x),
{
    x ^ SIGN_MASK
}

pub fn abs_bits(x: u64) -> (r: u64)
    ensures
        r == spec_abs(x),
{
    x & (EXP_MASK | FRAC_MASK)
}

pub fn next_up(x: u64) -> (r: u64)
    ensures
        r == spec_next_up(x),
{
    if is_nan(x) || x == POS_INF_BITS {
        x
    } else if x == NEG_ZERO_BITS {
        1u64
    } else if x & SIGN_MASK == 0 {
        assert(x & SIGN_MASK == 0 ==> x < 0x8000_0000_0000_0000u64) by (bit_vector);
        x + 1
    } else {
        assert(x & SIGN_MASK != 0 ==> x >= 0x8000_0000_0000_0000u64) by (bit_vector);
        x - 1
    }
}

pub fn next_down(x: u64) -> (r: u64)
    ensures
        r == spec_next_down(x),
{
    if is_nan(x) || x == NEG_INF_BITS {
        x
    } else if x == POS_ZERO_BITS {
        NEG_ZERO_BITS + 1
    } else if x & SIGN_MASK != 0 {
        assert((!(x & 0x7FF0_0000_0000_0000u64 == 0x7FF0_0000_0000_0000u64
            && x & 0x000F_FFFF_FFFF_FFFFu64 != 0) && x != 0xFFF0_0000_0000_0000u64
            && x & 0x8000_0000_0000_0000u64 != 0) ==> x < 0xFFFF_FFFF_FFFF_FFFFu64)
            by (bit_vector);
        x + 1
    } else {
        assert((x & 0x8000_0000_0000_0000u64 == 0 && x != 0) ==> x >= 1) by (bit_vector);
        x - 1
    }
}

/// Stepping up and then down returns to the start.  The step up must not
/// leave the value fixed (NaN, positive infinity) and must not cross zero
/// (from negative zero the step up lands on the smallest positive
/// subnormal, whose step down is positive zero, a different bit pattern).
pub proof fn lemma_next_down_of_next_up(x: u64)
    requires
        !is_nan_bits(x),
        x != POS_INF_BITS,
        x != NEG_ZERO_BITS,
    ensures
        spec_next_down(spec_next_up(x)) == x,
{
    assert((!(x & 0x7FF0_0000_0000_0000u64 == 0x7FF0_0000_0000_0000u64
        && x & 0x000F_FFFF_FFFF_FFFFu64 != 0) && x != 0x7FF0_0000_0000_0000u64
        && x != 0x8000_0000_0000_0000u64) ==> {
        let yy = if x & 0x8000_0000_0000_0000u64 == 0 { (x + 1) as u64 } else { (x - 1) as u64 };
        let back = if (yy & 0x7FF0_0000_0000_0000u64 == 0x7FF0_0000_0000_0000u64
            && yy & 0x000F_FFFF_FFFF_FFFFu64 != 0) || yy == 0xFFF0_0000_0000_0000u64 {
            yy
        } else if yy == 0u64 {
            (0x8000_0000_0000_0000u64 + 1) as u64
        } else if yy & 0x8000_0000_0000_0000u64 != 0 {
            (yy + 1) as u64
        } else {
            (yy - 1) as u64
        };
        back == x
    }) by (bit_vector);
}

/// Stepping down and then up returns to the start, under the mirrored
/// side conditions (positive zero steps down to the smallest negative
/// subnormal, whose step up is negative zero, a different bit pattern).
pub proof fn lemma_next_up_of_next_down(x: u64)
    requires
        !is_nan_bits(x),
        x != NEG_INF_BITS,
        x != POS_ZERO_BITS,
    ensures
        spec_next_up(spec_next_down(x)) == x,
{
    assert((!(x & 0x7FF0_0000_0000_0000u64 == 0x7FF0_0000_0000_0000u64
        && x & 0x000F_FFFF_FFFF_FFFFu64 != 0) && x != 0xFFF0_0000_0000_0000u64
        && x != 0u64) ==> {
        let yy = if x & 0x8000_0000_0000_0000u64 != 0 { (x + 1) as u64 } else { (x - 1) as u64 };
        let back = if (yy & 0x7FF0_0000_0000_0000u64 == 0x7FF0_0000_0000_0000u64
            && yy & 0x000F_FFFF_FFFF_FFFFu64 != 0) || yy == 0x7FF0_0000_0000_0000u64 {
            yy
        } else if yy == 0x8000_0000_0000_0000u64 {
            1u64
        } else if yy & 0x8000_0000_0000_0000u64 == 0 {
            (yy + 1) as u64
        } else {
            (yy - 1) as u64
        };
        back == x
    }) by (bit_vector);
}

} // verus!
