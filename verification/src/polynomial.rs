//! Odd and even polynomials with binary64 coefficients carried as bit
//! patterns.
//!
//! An `OddPolynomial` holds coefficients for the odd powers x, x^3, x^5,
//! ...; an `EvenPolynomial` for the even powers 1, x^2, x^4, ....  Both
//! are immutable value objects of a size fixed at construction.
//! Evaluation is Horner's rule in the variable x^2 with a fused
//! multiply-add at every step, exactly in descending-power order; the
//! derivative and integral transforms act coefficient-by-coefficient with
//! the factor `2 i + 1`; `polynomial_multiply_plusminus` multiplies by
//! `(x - c) * (x + c)`, shifting each coefficient one slot up.
use vstd::prelude::*;
use crate::fp;

verus! {

#[derive(Debug, Clone)]
pub struct OddPolynomial {
    pub coeffs: Vec<u64>,
}

#[derive(Debug, Clone)]
pub struct EvenPolynomial {
    pub coeffs: Vec<u64>,
}

/// A polynomial over all powers of x, even and odd; only produced as the
/// expansion of an `EvenPolynomial`.
#[derive(Debug, Clone)]
pub struct Polynomial {
    pub coeffs: Vec<u64>,
}

impl View for OddPolynomial {
    type V = Seq<u64>;

    open spec fn view(&self) -> Seq<u64> {
        self.coeffs@
    }
}

impl View for EvenPolynomial {
    type V = Seq<u64>;

    open spec fn view(&self) -> Seq<u64> {
        self.coeffs@
    }
}

impl View for Polynomial {
    type V = Seq<u64>;

    open spec fn view(&self) -> Seq<u64> {
        self.coeffs@
    }
}

/// Horner's rule over the shared coefficient layout: the accumulator is
/// seeded with the highest coefficient and folded down with one fused
/// multiply-add per remaining coefficient.
pub open spec fn spec_horner(s: Seq<u64>, xsq: u64) -> u64
    decreases s.len(),
{
    if s.len() <= 1 {
        s[0]
    } else {
        fp::dfma(spec_horner(s.drop_first(), xsq), xsq, s[0])
    }
}

/// Value of an even polynomial at x: Horner in x^2.
pub open spec fn spec_eval_even(s: Seq<u64>, x: u64) -> u64 {
    spec_horner(s, fp::dmul(x, x))
}

/// Value of an odd polynomial at x: Horner in x^2, then one final
/// multiplication by x.
pub open spec fn spec_eval_odd(s: Seq<u64>, x: u64) -> u64 {
    fp::dmul(spec_horner(s, fp::dmul(x, x)), x)
}

/// Term-by-term power rule: coefficient i of the derivative is
/// coefficient i of the odd polynomial times `2 i + 1`.
pub open spec fn spec_derivative(s: Seq<u64>) -> Seq<u64> {
    Seq::new(s.len(), |i: int| fp::dmul(s[i], fp::d_of_uint((2 * i + 1) as u64)))
}

/// Term-by-term antiderivative: coefficient i of the integral is
/// coefficient i of the even polynomial divided by `2 i + 1`.
pub open spec fn spec_integral(s: Seq<u64>) -> Seq<u64> {
    Seq::new(s.len(), |i: int| fp::ddiv(s[i], fp::d_of_uint((2 * i + 1) as u64)))
}

/// Multiplication by `(x - c) * (x + c)`, that is by `x^2 - c^2`: each
/// coefficient moves one slot up and `-c^2` times the resident
/// coefficient is added to it.  The highest input coefficient has no slot
/// to move into and is discarded.
pub open spec fn spec_multiply_plusminus(s: Seq<u64>, c: u64) -> Seq<u64> {
    let ncs = fp::spec_neg(fp::dmul(c, c));
    Seq::new(
        s.len(),
        |i: int|
            if i == 0 {
                fp::dmul(s[0], ncs)
            } else {
                fp::dadd(s[i - 1], fp::dmul(s[i], ncs))
            },
    )
}

/// The even polynomial spread over a full coefficient vector: its
/// coefficient i lands at slot `2 i`, the odd slots are zero.
pub open spec fn spec_full(s: Seq<u64>) -> Seq<u64> {
    Seq::new((2 * s.len() - 1) as nat, |j: int| if j % 2 == 0 { s[j / 2] } else { 0u64 })
}

/// Shared Horner loop over a coefficient vector, in the variable xsq.
fn horner_loop(coeffs: &Vec<u64>, xsq: u64) -> (r: u64)
    requires
        coeffs@.len() >= 1,
    ensures
        r == spec_horner(coeffs@, xsq),
{
    let n = coeffs.len();
    let mut result: u64 = coeffs[n - 1];
    let mut i: usize = n - 1;
    while i > 0
        invariant
            i < n,
            n == coeffs@.len(),
            result == spec_horner(coeffs@.subrange(i as int, n as int), xsq),
        decreases i,
    {
        i = i - 1;
        result = fp::fma_bits(result, xsq, coeffs[i]);
        assert(coeffs@.subrange(i as int, n as int).drop_first() =~= coeffs@.subrange(
            i + 1,
            n as int,
        ));
    }
    assert(coeffs@.subrange(0, n as int) =~= coeffs@);
    result
}

impl OddPolynomial {
    /// Horner evaluation at x in descending-power order, one fused
    /// multiply-add per step, with the trailing multiplication by x that
    /// the odd powers call for.
    pub fn eval(&self, x: u64) -> (r: u64)
        requires
            self@.len() >= 1,
        ensures
            r == spec_eval_odd(self@, x),
    {
        let xsq = fp::mul_bits(x, x);
        let folded = horner_loop(&self.coeffs, xsq);
        fp::mul_bits(folded, x)
    }

    /// Term-by-term power rule; the index structure is preserved.
    pub fn derivative(&self) -> (r: EvenPolynomial)
        requires
            2 * self@.len() <= u64::MAX,
        ensures
            r@ == spec_derivative(self@),
    {
        let n = self.coeffs.len();
        let mut result: Vec<u64> = Vec::new();
        let mut i: usize = 0;
        while i < n
            invariant
                i <= n,
                n == self@.len(),
                2 * n <= u64::MAX,
                result@.len() == i,
                forall|j: int| 0 <= j < i ==> result@[j] == spec_derivative(self@)[j],
            decreases n - i,
        {
            let factor = fp::uint_to_bits(2 * (i as u64) + 1);
            result.push(fp::mul_bits(self.coeffs[i], factor));
            i = i + 1;
        }
        assert(result@ =~= spec_derivative(self@));
        EvenPolynomial { coeffs: result }
    }

    /// The degree of the highest term, `2 D - 1` for D coefficients.
    pub fn get_degree(&self) -> (r: usize)
        requires
            self@.len() >= 1,
            2 * self@.len() <= usize::MAX,
        ensures
            r == 2 * self@.len() - 1,
    {
        self.coeffs.len() * 2 - 1
    }
}

impl EvenPolynomial {
    /// Horner evaluation at x in descending-power order, one fused
    /// multiply-add per step.
    pub fn eval(&self, x: u64) -> (r: u64)
        requires
            self@.len() >= 1,
        ensures
            r == spec_eval_even(self@, x),
    {
        let xsq = fp::mul_bits(x, x);
        horner_loop(&self.coeffs, xsq)
    }

    /// Term-by-term antiderivative; no constant term is added, since the
    /// odd/even representation has no slot for one.
    pub fn integral(&self) -> (r: OddPolynomial)
        requires
            2 * self@.len() <= u64::MAX,
        ensures
            r@ == spec_integral(self@),
    {
        let n = self.coeffs.len();
        let mut result: Vec<u64> = Vec::new();
        let mut i: usize = 0;
        while i < n
            invariant
                i <= n,
                n == self@.len(),
                2 * n <= u64::MAX,
                result@.len() == i,
                forall|j: int| 0 <= j < i ==> result@[j] == spec_integral(self@)[j],
            decreases n - i,
        {
            let factor = fp::uint_to_bits(2 * (i as u64) + 1);
            result.push(fp::div_bits(self.coeffs[i], factor));
            i = i + 1;
        }
        assert(result@ =~= spec_integral(self@));
        OddPolynomial { coeffs: result }
    }

    /// Multiplies this polynomial by `(x + c) * (x - c)`.  The
    /// most-significant coefficient should be zero, to make room for the
    /// multiplication: it is discarded, not checked.
    pub fn polynomial_multiply_plusminus(&self, c: u64) -> (r: EvenPolynomial)
        requires
            self@.len() >= 1,
        ensures
            r@ == spec_multiply_plusminus(self@, c),
    {
        let n = self.coeffs.len();
        let ncs = fp::neg_bits(fp::mul_bits(c, c));
        let mut result: Vec<u64> = Vec::new();
        result.push(fp::mul_bits(self.coeffs[0], ncs));
        let mut i: usize = 1;
        while i < n
            invariant
                1 <= i <= n,
                n == self@.len(),
                ncs == fp::spec_neg(fp::dmul(c, c)),
                result@.len() == i,
                forall|j: int| 0 <= j < i ==> result@[j] == spec_multiply_plusminus(self@, c)[j],
            decreases n - i,
        {
            result.push(fp::add_bits(self.coeffs[i - 1], fp::mul_bits(self.coeffs[i], ncs)));
            i = i + 1;
        }
        assert(result@ =~= spec_multiply_plusminus(self@, c));
        EvenPolynomial { coeffs: result }
    }

    /// Spreads the even coefficients over a full coefficient vector, one
    /// zero slot between any two of them.
    pub fn to_full_polynomial(&self) -> (r: Polynomial)
        requires
            self@.len() >= 1,
            2 * self@.len() <= usize::MAX,
        ensures
            r@ == spec_full(self@),
    {
        let n = self.coeffs.len();
        let full_len = 2 * n - 1;
        let mut result: Vec<u64> = Vec::new();
        let mut j: usize = 0;
        while j < full_len
            invariant
                j <= full_len,
                full_len == 2 * n - 1,
                n == self@.len(),
                n >= 1,
                result@.len() == j,
                forall|k: int| 0 <= k < j ==> result@[k] == spec_full(self@)[k],
            decreases full_len - j,
        {
            if j % 2 == 0 {
                result.push(self.coeffs[j / 2]);
            } else {
                result.push(0);
            }
            j = j + 1;
        }
        assert(result@ =~= spec_full(self@));
        Polynomial { coeffs: result }
    }
}

/// Integrating an even polynomial and differentiating the result touches
/// every coefficient twice with the same factor `2 i + 1`, first a
/// division and then a multiplication, and preserves the index structure;
/// no coefficient moves and no slot is added or lost.
pub proof fn lemma_derivative_of_integral_structure(s: Seq<u64>)
    ensures
        spec_derivative(spec_integral(s)) =~= Seq::new(
            s.len(),
            |i: int|
                fp::dmul(
                    fp::ddiv(s[i], fp::d_of_uint((2 * i + 1) as u64)),
                    fp::d_of_uint((2 * i + 1) as u64),
                ),
        ),
{
}

} // verus!
