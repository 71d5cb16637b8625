//! Error-extremum bookkeeping.
//!
//! The worst error of a candidate polynomial against sine is found by
//! sampling the error's derivative at evenly spaced points, bracketing
//! every sign change, refining each bracket with a bracketing root-finder
//! (an external collaborator the caller drives), and taking the largest
//! absolute error seen at the left edge and at every refined extremum.
//! This module holds the parts of that scan that decide: the sample
//! placement, the sign-change test and bracket listing, and the running
//! maximum of absolute values.  The caller supplies the derivative and
//! error values, since those involve sine and cosine of the sample
//! points.
use vstd::prelude::*;
use crate::fp;

verus! {

/// How many evenly spaced samples the extremum scan takes over its
/// interval.
pub const SCAN_SAMPLES: usize = 50;

/// Sample i of `steps` evenly spaced points from min to max inclusive:
/// `(i / (steps - 1)) * (max - min) + min`, each operation rounding once.
pub open spec fn spec_sample(min: u64, max: u64, steps: u64, i: u64) -> u64 {
    fp::dadd(
        fp::dmul(fp::ddiv(fp::d_of_uint(i), fp::d_of_uint((steps - 1) as u64)), fp::dsub(max, min)),
        min,
    )
}

/// Whether the error derivative changes sign between two consecutive
/// samples, as comparing the two signum values does: the sign bits
/// differ, or either value is NaN (whose signum compares unequal to
/// every value, itself included).
pub open spec fn spec_sign_changed(a: u64, b: u64) -> bool {
    fp::is_nan_bits(a) || fp::is_nan_bits(b) || fp::sign_bit(a) != fp::sign_bit(b)
}

/// The larger of two binary64 values, a NaN operand losing to the other,
/// as the scan's running maximum takes them.
pub open spec fn spec_max(a: u64, b: u64) -> u64 {
    if fp::is_nan_bits(a) {
        b
    } else if fp::is_nan_bits(b) {
        a
    } else if fp::dgt(a, b) {
        a
    } else {
        b
    }
}

/// The running maximum folded over the absolute values of a sequence,
/// seeded from the left.
pub open spec fn spec_fold_max_abs(seed: u64, s: Seq<u64>) -> u64
    decreases s.len(),
{
    if s.len() == 0 {
        seed
    } else {
        spec_fold_max_abs(spec_max(seed, fp::spec_abs(s[0])), s.drop_first())
    }
}

/// The evenly spaced sample points of the scan's interval, min and max
/// included.
pub fn sample_points(min: u64, max: u64, steps: usize) -> (r: Vec<u64>)
    requires
        2 <= steps <= u64::MAX,
    ensures
        r@.len() == steps,
        forall|i: int| 0 <= i < steps ==> r@[i] == spec_sample(min, max, steps as u64, i as u64),
{
    let width = fp::sub_bits(max, min);
    let divisor = fp::uint_to_bits((steps - 1) as u64);
    let mut result: Vec<u64> = Vec::new();
    let mut i: usize = 0;
    while i < steps
        invariant
            i <= steps,
            2 <= steps <= u64::MAX,
            width == fp::dsub(max, min),
            divisor == fp::d_of_uint((steps - 1) as u64),
            result@.len() == i,
            forall|j: int|
                0 <= j < i ==> result@[j] == spec_sample(min, max, steps as u64, j as u64),
        decreases steps - i,
    {
        let position = fp::div_bits(fp::uint_to_bits(i as u64), divisor);
        result.push(fp::add_bits(fp::mul_bits(position, width), min));
        i = i + 1;
    }
    result
}

/// Whether the error derivative changes sign between two consecutive
/// samples.
pub fn sign_changed(a: u64, b: u64) -> (r: bool)
    ensures
        r == spec_sign_changed(a, b),
{
    fp::is_nan(a) || fp::is_nan(b) || (a & fp::SIGN_MASK != 0) != (b & fp::SIGN_MASK != 0)
}

/// Lists, in increasing order, every index i such that the derivative
/// values at samples i - 1 and i have opposite signs: each such pair of
/// samples brackets a local extremum of the error for the root-finder to
/// refine.
pub fn find_sign_change_brackets(derivatives: &Vec<u64>) -> (r: Vec<usize>)
    ensures
        forall|j: int| 0 <= j < r@.len() ==> 1 <= #[trigger] r@[j] < derivatives@.len(),
        forall|j1: int, j2: int| 0 <= j1 < j2 < r@.len() ==> r@[j1] < r@[j2],
        forall|i: int|
            1 <= i < derivatives@.len() ==> (#[trigger] r@.contains(i as usize) <==> spec_sign_changed(
                derivatives@[i - 1],
                derivatives@[i],
            )),
{
    let n = derivatives.len();
    let mut result: Vec<usize> = Vec::new();
    if n == 0 {
        return result;
    }
    let mut i: usize = 1;
    while i < n
        invariant
            1 <= i <= n,
            n == derivatives@.len(),
            forall|j: int| 0 <= j < result@.len() ==> 1 <= #[trigger] result@[j] < i,
            forall|j1: int, j2: int| 0 <= j1 < j2 < result@.len() ==> result@[j1] < result@[j2],
            forall|k: int|
                1 <= k < i ==> (#[trigger] result@.contains(k as usize) <==> spec_sign_changed(
                    derivatives@[k - 1],
                    derivatives@[k],
                )),
        decreases n - i,
    {
        if sign_changed(derivatives[i - 1], derivatives[i]) {
            let ghost before = result@;
            result.push(i);
            assert(result@.drop_last() =~= before);
            assert(result@.contains(i as usize)) by {
                assert(result@[result@.len() - 1] == i as usize);
            }
            assert forall|k: int| 1 <= k < i + 1 implies (#[trigger] result@.contains(k as usize)
                <==> spec_sign_changed(derivatives@[k - 1], derivatives@[k])) by {
                if k < i {
                    assert(before.contains(k as usize) ==> result@.contains(k as usize)) by {
                        if before.contains(k as usize) {
                            let idx = choose|idx: int|
                                0 <= idx < before.len() && before[idx] == k as usize;
                            assert(result@[idx] == k as usize);
                        }
                    }
                    assert(result@.contains(k as usize) ==> before.contains(k as usize)) by {
                        if result@.contains(k as usize) {
                            let idx = choose|idx: int|
                                0 <= idx < result@.len() && result@[idx] == k as usize;
                            assert(idx < result@.len() - 1);
                            assert(before[idx] == k as usize);
                        }
                    }
                }
            }
        }
        i = i + 1;
    }
    result
}

/// The larger of two binary64 values, a NaN operand losing to the other.
pub fn max_bits(a: u64, b: u64) -> (r: u64)
    ensures
        r == spec_max(a, b),
{
    if fp::is_nan(a) {
        b
    } else if fp::is_nan(b) {
        a
    } else if fp::gt_bits(a, b) {
        a
    } else {
        b
    }
}

/// Folds the scan's running maximum over the absolute values of the
/// refined extremum errors, seeded with the absolute error at the
/// interval's left edge.
pub fn running_max_abs(seed: u64, errors: &Vec<u64>) -> (r: u64)
    ensures
        r == spec_fold_max_abs(seed, errors@),
{
    let n = errors.len();
    let mut acc = seed;
    let mut i: usize = 0;
    assert(errors@.subrange(0, n as int) =~= errors@);
    while i < n
        invariant
            i <= n,
            n == errors@.len(),
            spec_fold_max_abs(seed, errors@) == spec_fold_max_abs(acc, errors@.subrange(i as int, n as int)),
        decreases n - i,
    {
        let ghost rest = errors@.subrange(i as int, n as int);
        acc = max_bits(acc, fp::abs_bits(errors[i]));
        i = i + 1;
        assert(rest.drop_first() =~= errors@.subrange(i as int, n as int));
    }
    assert(errors@.subrange(n as int, n as int) =~= Seq::<u64>::empty());
    acc
}

/// The absolute error of a candidate value against the sine value at the
/// same point: `P(x) - sin(x)`.  The caller supplies both values; this
/// function fixes how they combine.
pub fn absolute_error(poly_value: u64, sin_value: u64) -> (r: u64)
    ensures
        r == fp::dsub(poly_value, sin_value),
{
    fp::sub_bits(poly_value, sin_value)
}

/// The derivative of the absolute error: `P'(x) - cos(x)`.
pub fn absolute_error_derivative(derivative_value: u64, cos_value: u64) -> (r: u64)
    ensures
        r == fp::dsub(derivative_value, cos_value),
{
    fp::sub_bits(derivative_value, cos_value)
}

/// The relative error of a candidate value against the sine value at the
/// same point: `P(x) / sin(x) - 1`.  The sine value must come from a
/// point away from zero; the domain choice enforces that, not this
/// function.
pub fn relative_error(poly_value: u64, sin_value: u64) -> (r: u64)
    ensures
        r == fp::dsub(fp::ddiv(poly_value, sin_value), fp::ONE_BITS),
{
    fp::sub_bits(fp::div_bits(poly_value, sin_value), fp::ONE_BITS)
}

/// The derivative of the relative error by the quotient rule:
/// `(P'(x) - P(x) cos(x) / sin(x)) / sin(x)`.
pub fn relative_error_derivative(
    derivative_value: u64,
    poly_value: u64,
    sin_value: u64,
    cos_value: u64,
) -> (r: u64)
    ensures
        r == fp::ddiv(
            fp::dsub(derivative_value, fp::ddiv(fp::dmul(poly_value, cos_value), sin_value)),
            sin_value,
        ),
{
    fp::div_bits(
        fp::sub_bits(
            derivative_value,
            fp::div_bits(fp::mul_bits(poly_value, cos_value), sin_value),
        ),
        sin_value,
    )
}

} // verus!
