//! Constrained-coefficient solver.
//!
//! A candidate sine approximant of size P is built from a scaffold even
//! polynomial: slot 0 holds the fixed leading coefficient `-1 / (pi/2)^2`
//! (anchoring curvature near the origin), the next slots hold the
//! caller-chosen free coefficients, the second-to-last slot holds the one
//! dependent coefficient, and the last slot is zero, reserved for the
//! degree increase of the conjugate-root multiplication.  The scaffold is
//! multiplied by `(x - pi/2) * (x + pi/2)` and integrated, so that the
//! candidate's derivative has roots at the domain edges.
//!
//! The dependent coefficient is chosen so that the candidate is exactly
//! one at pi/2.  A bracketing root-finder (an external collaborator that
//! the caller drives on `residual_at`) gets it near; `refine_boundary`
//! then walks it one representable value at a time until the boundary
//! evaluation is no longer on the wrong side, so that the constraint
//! holds to the last bit.  The walk is capped: if the cap is exhausted,
//! the walk surfaces `RefinementOscillation` instead of looping.
use vstd::prelude::*;
use crate::fp;
use crate::polynomial::EvenPolynomial;
use crate::polynomial::OddPolynomial;
use crate::polynomial::spec_eval_odd;
use crate::polynomial::spec_integral;
use crate::polynomial::spec_multiply_plusminus;

verus! {

/// Bound on the number of one-step boundary refinements before the walk
/// reports oscillation.
pub const REFINE_STEP_LIMIT: u64 = 100_000;

/// A failed attempt to satisfy the boundary constraint.
#[derive(Debug, Clone, Copy, PartialEq, Eq, Structural)]
pub enum SolveError {
    /// The boundary residual has no sign change over the root-finder's
    /// bracket for the given free coefficients.
    ConstraintUnsatisfiable,
    /// The one-step boundary walk exhausted its step bound without
    /// settling.
    RefinementOscillation,
}

/// The two individually optimized approximants of one degree: the
/// polynomial and worst error of the absolute-error pass, and those of
/// the relative-error pass, each evaluated at its own optimal free
/// coefficients.  Errors are binary64 bit patterns, as all scalars here.
#[derive(Debug, Clone)]
pub struct ApproximationResult {
    pub minimized_absolute_polynomial: OddPolynomial,
    pub minimized_absolute_error: u64,
    pub minimized_relative_polynomial: OddPolynomial,
    pub minimized_relative_error: u64,
}

/// The fixed leading scaffold coefficient, `-1 / (pi/2)^2`.
pub open spec fn spec_lead_coefficient() -> u64 {
    fp::ddiv(fp::NEG_ONE_BITS, fp::dmul(fp::HALF_PI_BITS, fp::HALF_PI_BITS))
}

/// The scaffold even polynomial of size p: the fixed leading coefficient,
/// then the free coefficients, the dependent coefficient second to last,
/// zero everywhere else (the last slot in particular).
pub open spec fn spec_scaffold(constants: Seq<u64>, dependent: u64, p: nat) -> Seq<u64> {
    Seq::new(
        p,
        |i: int|
            if i == 0 {
                spec_lead_coefficient()
            } else if i <= constants.len() {
                constants[i - 1]
            } else if i == p - 2 {
                dependent
            } else {
                0u64
            },
    )
}

/// The full candidate: scaffold, multiplied by `(x - pi/2) * (x + pi/2)`,
/// then integrated into an odd polynomial.
pub open spec fn spec_build(constants: Seq<u64>, dependent: u64, p: nat) -> Seq<u64> {
    spec_integral(spec_multiply_plusminus(spec_scaffold(constants, dependent, p), fp::HALF_PI_BITS))
}

/// How far the candidate's value at pi/2 is from the boundary target of
/// one.
pub open spec fn spec_residual(constants: Seq<u64>, dependent: u64, p: nat) -> u64 {
    fp::dsub(spec_eval_odd(spec_build(constants, dependent, p), fp::HALF_PI_BITS), fp::ONE_BITS)
}

/// The scaffold always leaves its most-significant slot zero: the slot
/// the conjugate-root multiplication shifts the dependent coefficient
/// into, so the multiplication discards nothing.
pub proof fn lemma_scaffold_reserves_top_slot(constants: Seq<u64>, dependent: u64, p: nat)
    requires
        p >= constants.len() + 3,
    ensures
        spec_scaffold(constants, dependent, p)[p - 1] == 0u64,
{
}

/// Builds the candidate odd polynomial of size p from the free
/// coefficients and the dependent coefficient.
pub fn build_sin_coeffs(constants: &Vec<u64>, dependent: u64, p: usize) -> (r: OddPolynomial)
    requires
        p >= constants@.len() + 3,
        2 * p <= u64::MAX,
    ensures
        r@ == spec_build(constants@, dependent, p as nat),
        r@.len() == p,
{
    let ghost scaffold = spec_scaffold(constants@, dependent, p as nat);
    let lead = fp::div_bits(fp::NEG_ONE_BITS, fp::mul_bits(fp::HALF_PI_BITS, fp::HALF_PI_BITS));
    let c = constants.len();
    let mut raw: Vec<u64> = Vec::new();
    raw.push(lead);
    let mut i: usize = 1;
    while i < p
        invariant
            1 <= i <= p,
            c == constants@.len(),
            p >= c + 3,
            raw@.len() == i,
            scaffold == spec_scaffold(constants@, dependent, p as nat),
            forall|j: int| 0 <= j < i ==> raw@[j] == scaffold[j],
        decreases p - i,
    {
        if i <= c {
            raw.push(constants[i - 1]);
        } else if i == p - 2 {
            raw.push(dependent);
        } else {
            raw.push(0);
        }
        i = i + 1;
    }
    assert(raw@ =~= scaffold);
    let even = EvenPolynomial { coeffs: raw };
    let multiplied = even.polynomial_multiply_plusminus(fp::HALF_PI_BITS);
    multiplied.integral()
}

/// The boundary residual at the given dependent coefficient: the
/// candidate's value at pi/2 minus one.  A caller hands this function to
/// a bracketing root-finder to solve for the dependent coefficient.
pub fn residual_at(constants: &Vec<u64>, dependent: u64, p: usize) -> (r: u64)
    requires
        p >= constants@.len() + 3,
        2 * p <= u64::MAX,
    ensures
        r == spec_residual(constants@, dependent, p as nat),
{
    let poly = build_sin_coeffs(constants, dependent, p);
    let boundary = poly.eval(fp::HALF_PI_BITS);
    fp::sub_bits(boundary, fp::ONE_BITS)
}

/// The upward phase of the boundary refinement, as a value: step the
/// dependent coefficient toward positive infinity while the candidate's
/// boundary evaluation is below one, and give up when the fuel runs out.
pub open spec fn spec_walk_up(constants: Seq<u64>, d: u64, p: nat, fuel: nat) -> Option<u64>
    decreases fuel,
{
    if !fp::dlt(spec_eval_odd(spec_build(constants, d, p), fp::HALF_PI_BITS), fp::ONE_BITS) {
        Some(d)
    } else if fuel == 0 {
        None
    } else {
        spec_walk_up(constants, fp::spec_next_up(d), p, (fuel - 1) as nat)
    }
}

/// The downward phase, mirroring `spec_walk_up`: step toward negative
/// infinity while the boundary evaluation is above one.
pub open spec fn spec_walk_down(constants: Seq<u64>, d: u64, p: nat, fuel: nat) -> Option<u64>
    decreases fuel,
{
    if !fp::dgt(spec_eval_odd(spec_build(constants, d, p), fp::HALF_PI_BITS), fp::ONE_BITS) {
        Some(d)
    } else if fuel == 0 {
        None
    } else {
        spec_walk_down(constants, fp::spec_next_down(d), p, (fuel - 1) as nat)
    }
}

/// The whole refinement walk: the upward phase, then the downward phase
/// from wherever the upward phase settled, each phase bounded by
/// `REFINE_STEP_LIMIT` steps.
pub open spec fn spec_refine(constants: Seq<u64>, d0: u64, p: nat) -> Option<u64> {
    match spec_walk_up(constants, d0, p, REFINE_STEP_LIMIT as nat) {
        Some(d1) => spec_walk_down(constants, d1, p, REFINE_STEP_LIMIT as nat),
        None => None,
    }
}

/// A dependent coefficient whose candidate already meets the boundary
/// target -- its value at pi/2 neither below nor above one -- is a fixed
/// point of the refinement walk: re-running the walk returns it
/// unchanged, so a settled solve is idempotent.
pub proof fn lemma_refine_fixed_point(constants: Seq<u64>, d: u64, p: nat)
    requires
        !fp::dlt(spec_eval_odd(spec_build(constants, d, p), fp::HALF_PI_BITS), fp::ONE_BITS),
        !fp::dgt(spec_eval_odd(spec_build(constants, d, p), fp::HALF_PI_BITS), fp::ONE_BITS),
    ensures
        spec_refine(constants, d, p) == Some(d),
{
    assert(spec_walk_up(constants, d, p, REFINE_STEP_LIMIT as nat) == Some(d));
    assert(spec_walk_down(constants, d, p, REFINE_STEP_LIMIT as nat) == Some(d));
}

/// Walks the dependent coefficient one representable value at a time --
/// up while the boundary evaluation is below one, then down while it is
/// above one -- rebuilding the candidate after each step, so that the
/// returned polynomial's value at pi/2 is not above one and is exactly
/// one whenever the walk settles without overshooting.  The result is
/// exactly what `spec_refine` gives: in particular the walk is a function
/// of its inputs alone.  Surfaces `RefinementOscillation` instead of
/// walking more than `REFINE_STEP_LIMIT` steps in either phase.
pub fn refine_boundary(constants: &Vec<u64>, dependent0: u64, p: usize) -> (r: Result<
    (OddPolynomial, u64),
    SolveError,
>)
    requires
        p >= constants@.len() + 3,
        2 * p <= u64::MAX,
    ensures
        match r {
            Ok(pd) => {
                &&& spec_refine(constants@, dependent0, p as nat) == Some(pd.1)
                &&& pd.0@ == spec_build(constants@, pd.1, p as nat)
                &&& pd.0@.len() == p
                &&& !fp::dgt(spec_eval_odd(pd.0@, fp::HALF_PI_BITS), fp::ONE_BITS)
            },
            Err(e) => {
                &&& e == SolveError::RefinementOscillation
                &&& spec_refine(constants@, dependent0, p as nat) is None
            },
        },
{
    let mut dependent = dependent0;
    let mut coeffs = build_sin_coeffs(constants, dependent, p);
    let mut boundary = coeffs.eval(fp::HALF_PI_BITS);
    let mut steps: u64 = 0;
    loop
        invariant
            p >= constants@.len() + 3,
            2 * p <= u64::MAX,
            coeffs@ == spec_build(constants@, dependent, p as nat),
            coeffs@.len() == p,
            boundary == spec_eval_odd(coeffs@, fp::HALF_PI_BITS),
            steps <= REFINE_STEP_LIMIT,
            spec_walk_up(constants@, dependent0, p as nat, REFINE_STEP_LIMIT as nat)
                == spec_walk_up(constants@, dependent, p as nat, (REFINE_STEP_LIMIT - steps) as nat),
        ensures
            coeffs@ == spec_build(constants@, dependent, p as nat),
            coeffs@.len() == p,
            boundary == spec_eval_odd(coeffs@, fp::HALF_PI_BITS),
            !fp::dlt(boundary, fp::ONE_BITS),
            spec_walk_up(constants@, dependent0, p as nat, REFINE_STEP_LIMIT as nat) == Some(
                dependent,
            ),
        decreases REFINE_STEP_LIMIT - steps,
    {
        if !fp::lt_bits(boundary, fp::ONE_BITS) {
            break;
        }
        if steps == REFINE_STEP_LIMIT {
            return Err(SolveError::RefinementOscillation);
        }
        steps = steps + 1;
        dependent = fp::next_up(dependent);
        coeffs = build_sin_coeffs(constants, dependent, p);
        boundary = coeffs.eval(fp::HALF_PI_BITS);
    }
    steps = 0;
    loop
        invariant
            p >= constants@.len() + 3,
            2 * p <= u64::MAX,
            coeffs@ == spec_build(constants@, dependent, p as nat),
            coeffs@.len() == p,
            boundary == spec_eval_odd(coeffs@, fp::HALF_PI_BITS),
            steps <= REFINE_STEP_LIMIT,
            spec_refine(constants@, dependent0, p as nat) == spec_walk_down(
                constants@,
                dependent,
                p as nat,
                (REFINE_STEP_LIMIT - steps) as nat,
            ),
        ensures
            coeffs@ == spec_build(constants@, dependent, p as nat),
            coeffs@.len() == p,
            boundary == spec_eval_odd(coeffs@, fp::HALF_PI_BITS),
            !fp::dgt(boundary, fp::ONE_BITS),
            spec_refine(constants@, dependent0, p as nat) == Some(dependent),
        decreases REFINE_STEP_LIMIT - steps,
    {
        if !fp::gt_bits(boundary, fp::ONE_BITS) {
            break;
        }
        if steps == REFINE_STEP_LIMIT {
            return Err(SolveError::RefinementOscillation);
        }
        steps = steps + 1;
        dependent = fp::next_down(dependent);
        coeffs = build_sin_coeffs(constants, dependent, p);
        boundary = coeffs.eval(fp::HALF_PI_BITS);
    }
    Ok((coeffs, dependent))
}

} // verus!
