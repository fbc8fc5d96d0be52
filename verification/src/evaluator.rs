//! Which formula evaluates the normalised Black call, its vega and the
//! normalised intrinsic value at a point `(x, s)`.
//!
//! The caller does the rounded arithmetic and hands over the quantities that
//! the thresholds are held against; the choice among the formulas is made here.
use vstd::prelude::*;
use crate::binary64::{Binary64, Value, value_of};
use crate::definitions::SMALL_T_EXPANSION_OF_NORMALISED_BLACK_THRESHOLD;

verus! {

/// Bits of the sum of the two thresholds above, as rounded addition gives it.
pub const FAR_TAIL_THRESHOLD: u64 = 0xC023_945D_819A_94B1;

/// Bits of 0.85: above this value of `x / s + s / 2` the first term of the
/// Black formula dominates.
pub const DOMINANT_TERM_THRESHOLD: u64 = 0x3FEB_3333_3333_3333;

/// Bits of 0.46875: the argument at which Cody's error functions change
/// their own branch.
pub const CODYS_THRESHOLD: u64 = 0x3FDE_0000_0000_0000;

/// Bits of 98 times the fourth root of the machine epsilon: the square of
/// `x` below which the intrinsic value is taken from its series.
pub const INTRINSIC_SERIES_THRESHOLD: u64 = 0x3F88_8000_0000_0000;

/// The formula that evaluates the normalised Black call.
#[derive(Clone, Copy, Debug, PartialEq, Eq, Structural)]
pub enum Regime {
    /// `x > 0`: the intrinsic value plus the call at `-x`.
    InTheMoney,
    /// No volatility to speak of: the intrinsic value alone.
    Intrinsic,
    /// The asymptotic expansion for a far tail.
    Asymptotic,
    /// The expansion for a small total volatility.
    SmallVolatility,
    /// Two evaluations of the normal distribution: one term dominates.
    DominantTerm,
    /// One exponential and a difference of two scaled error functions.
    Balanced,
    /// The mix of error functions that costs the fewest exponentials.
    CodyOptimal,
}

/// The quantities that the choice of a regime reads at a point `(x, s)`.
#[derive(Clone, Copy, Debug)]
pub struct RegimeProbe {
    /// Log-moneyness.
    pub x: Binary64,
    /// Total volatility.
    pub s: Binary64,
    /// `|x|` times the denormalisation cutoff.
    pub horizon: Binary64,
    /// `s` times the asymptotic threshold.
    pub asymptote: Binary64,
    /// `s * s / 2 + x`.
    pub drift: Binary64,
    /// `s` times the far-tail threshold.
    pub far_tail: Binary64,
    /// `s / 2`.
    pub half_s: Binary64,
    /// `s` times the dominant-term threshold.
    pub dominance: Binary64,
}

impl RegimeProbe {
    /// The regime at this point: the first of the tests, in this order, that
    /// holds. `optimise` puts the cost-saving mix in place of the last two.
    pub open spec fn regime(self, optimise: bool) -> Regime {
        if self.x@.gt(value_of(0)) {
            Regime::InTheMoney
        } else if self.s@.le(self.horizon@) {
            Regime::Intrinsic
        } else if self.x@.lt(self.asymptote@) && self.drift@.lt(self.far_tail@) {
            Regime::Asymptotic
        } else if self.half_s@.lt(value_of(SMALL_T_EXPANSION_OF_NORMALISED_BLACK_THRESHOLD)) {
            Regime::SmallVolatility
        } else if optimise {
            Regime::CodyOptimal
        } else if self.drift@.gt(self.dominance@) {
            Regime::DominantTerm
        } else {
            Regime::Balanced
        }
    }
}

/// Chooses the formula for the normalised Black call at the probed point.
pub fn normalised_black_call_regime(probe: RegimeProbe, optimise: bool) -> (regime: Regime)
    ensures
        regime == probe.regime(optimise),
{
    let zero = Binary64 { bits: 0 };
    let tau = Binary64 { bits: SMALL_T_EXPANSION_OF_NORMALISED_BLACK_THRESHOLD };
    if probe.x.gt(zero) {
        Regime::InTheMoney
    } else if probe.s.le(probe.horizon) {
        Regime::Intrinsic
    } else if probe.x.lt(probe.asymptote) && probe.drift.lt(probe.far_tail) {
        Regime::Asymptotic
    } else if probe.half_s.lt(tau) {
        Regime::SmallVolatility
    } else if optimise {
        Regime::CodyOptimal
    } else if probe.drift.gt(probe.dominance) {
        Regime::DominantTerm
    } else {
        Regime::Balanced
    }
}

/// Which error function serves each of the two terms of the cost-saving mix.
#[derive(Clone, Copy, Debug, PartialEq, Eq, Structural)]
pub enum CodyForm {
    /// The complementary error function for both terms.
    BothPlain,
    /// The complementary one for the first, the scaled one for the second.
    PlainThenScaled,
    /// The scaled one for the first, the complementary one for the second.
    ScaledThenPlain,
    /// The scaled complementary error function for both terms.
    BothScaled,
}

/// The mix for the arguments `q1` and `q2` of the two terms: a term takes
/// the plain function where its argument is below Cody's threshold.
pub open spec fn cody_form_of(q1: Value, q2: Value) -> CodyForm {
    let c = value_of(CODYS_THRESHOLD);
    if q1.lt(c) {
        if q2.lt(c) {
            CodyForm::BothPlain
        } else {
            CodyForm::PlainThenScaled
        }
    } else if q2.lt(c) {
        CodyForm::ScaledThenPlain
    } else {
        CodyForm::BothScaled
    }
}

/// Chooses the error functions for the two terms of the cost-saving mix.
pub fn cody_form(q1: Binary64, q2: Binary64) -> (form: CodyForm)
    ensures
        form == cody_form_of(q1@, q2@),
{
    let c = Binary64 { bits: CODYS_THRESHOLD };
    if q1.lt(c) {
        if q2.lt(c) {
            CodyForm::BothPlain
        } else {
            CodyForm::PlainThenScaled
        }
    } else if q2.lt(c) {
        CodyForm::ScaledThenPlain
    } else {
        CodyForm::BothScaled
    }
}

/// The formula that evaluates the normalised vega.
#[derive(Clone, Copy, Debug, PartialEq, Eq, Structural)]
pub enum VegaBranch {
    /// `x` is zero: a single exponential in `s`.
    AtTheMoney,
    /// `s` is too small beside `|x|`: the vega has underflowed to zero.
    Vanished,
    /// The general closed form.
    General,
}

/// The branch for `|x|`, `s` and `floor`, the product of `|x|` and the
/// square root of the smallest normal number.
pub open spec fn vega_branch_of(ax: Value, s: Value, floor: Value) -> VegaBranch {
    if ax.le(value_of(0)) {
        VegaBranch::AtTheMoney
    } else if s.le(value_of(0)) || s.le(floor) {
        VegaBranch::Vanished
    } else {
        VegaBranch::General
    }
}

/// Chooses the formula for the normalised vega.
pub fn normalised_vega_branch(ax: Binary64, s: Binary64, floor: Binary64) -> (branch: VegaBranch)
    ensures
        branch == vega_branch_of(ax@, s@, floor@),
{
    let zero = Binary64 { bits: 0 };
    if ax.le(zero) {
        VegaBranch::AtTheMoney
    } else if s.le(zero) || s.le(floor) {
        VegaBranch::Vanished
    } else {
        VegaBranch::General
    }
}

/// The formula that evaluates the normalised intrinsic value.
#[derive(Clone, Copy, Debug, PartialEq, Eq, Structural)]
pub enum IntrinsicBranch {
    /// Out of the money or at it: the intrinsic value is zero.
    Zero,
    /// `x` is small: the series of the hyperbolic sine.
    Series,
    /// The difference of the two exponentials.
    Closed,
}

/// The branch for `qx`, the product of the option's sign and `x`, and `x2`,
/// the square of `x`.
pub open spec fn intrinsic_branch_of(qx: Value, x2: Value) -> IntrinsicBranch {
    if qx.le(value_of(0)) {
        IntrinsicBranch::Zero
    } else if x2.lt(value_of(INTRINSIC_SERIES_THRESHOLD)) {
        IntrinsicBranch::Series
    } else {
        IntrinsicBranch::Closed
    }
}

/// Chooses the formula for the normalised intrinsic value.
pub fn normalised_intrinsic_branch(qx: Binary64, x2: Binary64) -> (branch: IntrinsicBranch)
    ensures
        branch == intrinsic_branch_of(qx@, x2@),
{
    let zero = Binary64 { bits: 0 };
    let series = Binary64 { bits: INTRINSIC_SERIES_THRESHOLD };
    if qx.le(zero) {
        IntrinsicBranch::Zero
    } else if x2.lt(series) {
        IntrinsicBranch::Series
    } else {
        IntrinsicBranch::Closed
    }
}

/// Whether an option is in the money: `moneyness`, the product of the
/// option's sign and `x` (or of the sign and forward less strike), is above
/// zero. Such an option is priced as its intrinsic value plus the option of
/// the opposite sign.
pub fn is_in_the_money(moneyness: Binary64) -> (r: bool)
    ensures
        r == moneyness@.gt(value_of(0)),
{
    moneyness.gt(Binary64 { bits: 0 })
}

} // verus!
