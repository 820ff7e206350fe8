//! The weight-to-fee polynomial of the runtime.
use smallvec::SmallVec;
use sp_arithmetic::Perbill;
use vstd::arithmetic::div_mod::{
    lemma_div_by_multiple, lemma_div_is_ordered, lemma_div_is_ordered_by_denominator,
    lemma_div_pos_is_pos, lemma_fundamental_div_mod, lemma_hoist_over_denominator, lemma_mod_bound,
};
use vstd::prelude::*;

use crate::currency::{Balance, CENTS};

verus! {

/// Parts per billion of a `Perbill`: the value that stands for one whole.
pub const PERBILL_ACCURACY: u32 = 1_000_000_000;

/// One term `coeff_integer * x^degree + coeff_frac * x^degree` of a
/// weight-to-fee polynomial, subtracted instead of added when `negative`.
/// `coeff_frac` counts parts per billion, as a `Perbill` does.
#[derive(Clone, Copy, Debug, PartialEq, Eq, Structural)]
pub struct FeeCoefficient {
    /// The integral part of the coefficient.
    pub coeff_integer: Balance,
    /// The fractional part of the coefficient, in parts per billion.
    pub coeff_frac: u32,
    /// True iff the term is subtracted from the polynomial's result.
    pub negative: bool,
    /// Degree (exponent) of the term.
    pub degree: u8,
}

/// The coefficients of a weight-to-fee polynomial, held inline up to four
/// in a `SmallVec`, as the fee machinery of the chain takes them.
#[verifier::external_body]
pub struct FeeCoefficients {
    inner: SmallVec<[FeeCoefficient; 4]>,
}

/// The terms that a coefficient list holds, in order.
pub uninterp spec fn coefficients(v: FeeCoefficients) -> Seq<FeeCoefficient>;

impl FeeCoefficients {
    /// `SmallVec::new`: an empty list.
    #[verifier::external_body]
    fn new() -> (r: FeeCoefficients)
        ensures
            coefficients(r) == Seq::<FeeCoefficient>::empty(),
    {
        FeeCoefficients { inner: SmallVec::new() }
    }

    /// `SmallVec::push`: appends `c` at the end, keeping the terms before it.
    /// It panics only when the list cannot grow any further, which
    /// `requires` leaves out.
    #[verifier::external_body]
    fn push(&mut self, c: FeeCoefficient)
        requires
            coefficients(*old(self)).len() < usize::MAX,
        ensures
            coefficients(*final(self)) == coefficients(*old(self)).push(c),
    {
        self.inner.push(c)
    }

    /// `SmallVec::to_vec`: the terms, copied in order into a `Vec`.
    #[verifier::external_body]
    pub fn to_vec(&self) -> (r: Vec<FeeCoefficient>)
        ensures
            r@ == coefficients(*self),
    {
        self.inner.to_vec()
    }
}

/// What `Perbill::from_rational(p, q)` holds, in parts per billion:
/// `p / q` rounded down, and one whole where `q` is zero or `p > q`.
pub open spec fn spec_perbill_from_rational(p: int, q: int) -> int {
    if q == 0 || p > q {
        PERBILL_ACCURACY as int
    } else {
        (PERBILL_ACCURACY as int * p) / q
    }
}

/// `Perbill::from_rational` on two balances, read back by `deconstruct` as
/// its parts per billion. Its contract claims the rounding down of `p / q`
/// that `sp_arithmetic` computes exactly in 256-bit arithmetic, and the whole
/// `Perbill::one()` that it falls back to when `q` is zero or `p > q`.
#[verifier::external_body]
fn perbill_from_rational(p: u128, q: u128) -> (parts: u32)
    ensures
        parts == spec_perbill_from_rational(p as int, q as int),
{
    Perbill::from_rational(p, q).deconstruct()
}

/// The numerator `p` of the fee per unit of weight, `p / q`: a tenth of a
/// cent.
pub open spec fn fee_numerator() -> int {
    CENTS as int / 10
}

/// The denominator `q` of the fee per unit of weight, `p / q`: one
/// extrinsic base weight, so that the base weight costs a tenth of a cent.
pub open spec fn fee_denominator(base_ref_time: int) -> int {
    base_ref_time
}

/// The single term of the runtime's polynomial for a base extrinsic weight
/// of `base_ref_time`: degree one, positive, with `p / q` split into its
/// integral part and its fraction.
pub open spec fn spec_fee_coefficient(base_ref_time: int) -> FeeCoefficient {
    let p = fee_numerator();
    let q = fee_denominator(base_ref_time);
    FeeCoefficient {
        coeff_integer: (p / q) as u128,
        coeff_frac: spec_perbill_from_rational(p % q, q) as u32,
        negative: false,
        degree: 1,
    }
}

/// Maps a weight to a fee, based on the scale and granularity of the balance
/// type.
pub struct WeightToFee;

impl WeightToFee {
    /// The coefficients of the weight-to-fee polynomial, for an extrinsic
    /// base weight whose reference time is `base_ref_time`: one term of
    /// degree one whose coefficient is `(CENTS / 10) / base_ref_time`,
    /// its integral part exact and its fraction a `Perbill`. The term is
    /// added, never subtracted, and linear in the weight, and the base weight
    /// is charged a tenth of a cent, short by less than a billionth of the
    /// base weight for the rounding of the fraction. A base weight of zero
    /// would divide by zero, so `requires` leaves it out.
    pub fn polynomial(base_ref_time: u64) -> (r: FeeCoefficients)
        requires
            base_ref_time > 0,
        ensures
            coefficients(r) == seq![spec_fee_coefficient(base_ref_time as int)],
            coefficients(r).len() == 1,
            coefficients(r)[0].negative == false,
            coefficients(r)[0].degree == 1,
            coefficients(r)[0].coeff_integer == (CENTS as int / 10) / (base_ref_time as int),
            coefficients(r)[0].coeff_frac < PERBILL_ACCURACY,
            (coefficients(r)[0].coeff_integer * PERBILL_ACCURACY + coefficients(r)[0].coeff_frac)
                * base_ref_time <= (CENTS / 10) * PERBILL_ACCURACY,
            (CENTS / 10) * PERBILL_ACCURACY - base_ref_time < (coefficients(r)[0].coeff_integer
                * PERBILL_ACCURACY + coefficients(r)[0].coeff_frac) * base_ref_time,
    {
        proof {
            lemma_fee_term_is_positive_and_linear(base_ref_time as int);
            lemma_base_weight_costs_a_tenth_of_a_cent(base_ref_time as int);
        }
        let p: Balance = CENTS / 10;
        let q: Balance = base_ref_time as Balance;
        let frac = perbill_from_rational(p % q, q);
        let c = FeeCoefficient { coeff_integer: p / q, coeff_frac: frac, negative: false, degree: 1 };
        let mut v = FeeCoefficients::new();
        v.push(c);
        v
    }
}

/// For every base weight, the polynomial's term is added, never
/// subtracted, is linear in the weight, carries the whole part of a tenth of
/// a cent divided by the base weight, and a fraction below one whole.
pub proof fn lemma_fee_term_is_positive_and_linear(base_ref_time: int)
    requires
        0 < base_ref_time <= u64::MAX,
    ensures
        spec_fee_coefficient(base_ref_time).negative == false,
        spec_fee_coefficient(base_ref_time).degree == 1,
        spec_fee_coefficient(base_ref_time).coeff_integer == (CENTS as int / 10) / base_ref_time,
        spec_fee_coefficient(base_ref_time).coeff_frac < PERBILL_ACCURACY,
{
    let p = fee_numerator();
    let q = base_ref_time;
    let a = PERBILL_ACCURACY as int;
    lemma_mod_bound(p, q);
    lemma_div_pos_is_pos(p, q);
    assert(p / q <= p) by {
        lemma_div_is_ordered_by_denominator(p, 1, q);
    }
    assert(a * (p % q) < a * q) by (nonlinear_arith)
        requires
            0 <= p % q < q,
            a > 0,
    ;
    assert(a * (p % q) >= 0) by (nonlinear_arith)
        requires
            p % q >= 0,
            a > 0,
    ;
    lemma_div_by_multiple(a, q);
    lemma_div_is_ordered(a * (p % q), a * q - 1, q);
    lemma_fundamental_div_mod(a * q - 1, q);
    assert((a * q - 1) / q < a) by (nonlinear_arith)
        requires
            a * q - 1 == q * ((a * q - 1) / q) + (a * q - 1) % q,
            0 <= (a * q - 1) % q,
            q > 0,
    ;
}

/// The polynomial's term is the fee ratio `p / q` rounded down to a
/// billionth: its integral part times a billion plus its fraction in parts
/// per billion is `p * 10^9 / q`, rounded down.
pub proof fn lemma_fee_coefficient_is_ratio_rounded_down(base_ref_time: int)
    requires
        0 < base_ref_time <= u64::MAX,
    ensures
        ({
            let c = spec_fee_coefficient(base_ref_time);
            c.coeff_integer * PERBILL_ACCURACY + c.coeff_frac == (fee_numerator()
                * PERBILL_ACCURACY) / fee_denominator(base_ref_time)
        }),
{
    let p = fee_numerator();
    let q = fee_denominator(base_ref_time);
    let a = PERBILL_ACCURACY as int;
    lemma_fundamental_div_mod(p, q);
    lemma_mod_bound(p, q);
    assert(a * (p % q) + (p / q) * a * q == p * a) by (nonlinear_arith)
        requires
            p == q * (p / q) + p % q,
    ;
    lemma_hoist_over_denominator(a * (p % q), (p / q) * a, q as nat);
    assert(a * (p % q) >= 0) by (nonlinear_arith)
        requires
            p % q >= 0,
            a >= 0,
    ;
    assert(a * (p % q) / q <= a) by {
        lemma_div_is_ordered(a * (p % q), a * q, q);
        lemma_div_by_multiple(a, q);
        assert(a * (p % q) <= a * q) by (nonlinear_arith)
            requires
                p % q < q,
                a >= 0,
        ;
    }
}

/// The extrinsic base weight is charged a tenth of a cent: the term's
/// coefficient times the base weight is `CENTS / 10`, short by less than
/// `base_ref_time / 10^9` because the fraction is rounded down to a
/// billionth. Both sides are scaled by `10^9` to stay in whole numbers.
pub proof fn lemma_base_weight_costs_a_tenth_of_a_cent(base_ref_time: int)
    requires
        0 < base_ref_time <= u64::MAX,
    ensures
        ({
            let c = spec_fee_coefficient(base_ref_time);
            let charged = (c.coeff_integer * PERBILL_ACCURACY + c.coeff_frac) * base_ref_time;
            &&& charged <= (CENTS / 10) * PERBILL_ACCURACY
            &&& (CENTS / 10) * PERBILL_ACCURACY - base_ref_time < charged
        }),
{
    lemma_fee_coefficient_is_ratio_rounded_down(base_ref_time);
    let c = spec_fee_coefficient(base_ref_time);
    let f = c.coeff_integer * PERBILL_ACCURACY + c.coeff_frac;
    let n = fee_numerator() * PERBILL_ACCURACY;
    let b = base_ref_time;
    assert(f == n / b);
    lemma_fundamental_div_mod(n, b);
    lemma_mod_bound(n, b);
    assert(f * b <= n && n - b < f * b) by (nonlinear_arith)
        requires
            n == b * (n / b) + n % b,
            0 <= n % b < b,
            f == n / b,
    ;
}

} // verus!
