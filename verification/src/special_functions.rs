//! Which of their approximations the error functions and the normal
//! distribution evaluate at an argument. The approximations themselves are
//! rounded arithmetic and the caller's.
use vstd::prelude::*;
use crate::binary64::{Binary64, Value, value_of};
use crate::definitions::{fabs, fabs_of, ONE};

verus! {

/// Bits of 0.46875: up to here the error function is a rational function
/// of the square of its argument.
pub const THRESH: u64 = 0x3FDE_0000_0000_0000;

/// Bits of 4: up to here the complement is a rational function of the
/// argument, and an asymptotic form beyond.
pub const FOUR: u64 = 0x4010_0000_0000_0000;

/// Bits of 1.11e-16: an argument no larger has a square that does not count.
pub const XSMALL: u64 = 0x3C9F_FE5A_B7E8_AD5E;

/// Bits of 26.543: from here on the complement underflows.
pub const XBIG: u64 = 0x403A_8B02_0C49_BA5E;

/// Bits of 6.71e7: from here on the scaled complement is the reciprocal of
/// the argument over the square root of pi.
pub const XHUGE: u64 = 0x418F_FEEB_0000_0000;

/// Bits of 2.53e307: from here on the scaled complement underflows too.
pub const XMAX: u64 = 0x7FC2_03A2_7A37_512D;

/// Bits of -26.628: below this the scaled complement overflows.
pub const XNEG: u64 = 0xC03A_A0C4_9BA5_E354;

/// Bits of 1.79e308: what stands for the scaled complement where it overflows.
pub const XINF: u64 = 0x7FEF_DCF1_58AD_BB99;

/// Bits of -10: the largest argument at which the normal distribution is
/// taken from its asymptotic series.
pub const NORM_CDF_ASYMPTOTIC_EXPANSION_FIRST_THRESHOLD: u64 = 0xC024_0000_0000_0000;

/// Bits of minus the reciprocal of the square root of the machine epsilon,
/// -2^26: the least argument at which the series is summed.
pub const NORM_CDF_ASYMPTOTIC_EXPANSION_SECOND_THRESHOLD: u64 = 0xC190_0000_0000_0000;

/// Bits of 0.425: the inverse normal distribution has its central
/// approximation within this distance of one half.
pub const SPLIT1: u64 = 0x3FDB_3333_3333_3333;

/// Bits of 5: the bound between the two approximations for the tails.
pub const SPLIT2: u64 = 0x4014_0000_0000_0000;

/// One of the three error functions.
#[derive(Clone, Copy, Debug, PartialEq, Eq, Structural)]
pub enum ErrorFunction {
    /// The error function.
    Erf,
    /// The complementary error function, one minus the error function.
    Erfc,
    /// The scaled complementary error function, `exp(x^2) erfc(x)`.
    Erfcx,
}

/// The range of `|x|` that decides on the rational approximation.
#[derive(Clone, Copy, Debug, PartialEq, Eq, Structural)]
pub enum CodyRange {
    /// `|x| <= 0.46875`.
    Near,
    /// `0.46875 < |x| <= 4`.
    Middle,
    /// `|x| > 4`, and a NaN.
    Far,
}

/// The range of `y`, the absolute value of the argument.
pub open spec fn cody_range_of(y: Value) -> CodyRange {
    if y.le(value_of(THRESH)) {
        CodyRange::Near
    } else if y.le(value_of(FOUR)) {
        CodyRange::Middle
    } else {
        CodyRange::Far
    }
}

/// Chooses the rational approximation by `y`, the absolute value of the
/// argument.
pub fn cody_range(y: Binary64) -> (range: CodyRange)
    ensures
        range == cody_range_of(y@),
{
    if y.le(Binary64 { bits: THRESH }) {
        CodyRange::Near
    } else if y.le(Binary64 { bits: FOUR }) {
        CodyRange::Middle
    } else {
        CodyRange::Far
    }
}

/// Whether the near approximation squares its argument: only where `y` is
/// above the size at which the square counts; it takes zero otherwise.
pub fn squares_argument(y: Binary64) -> (r: bool)
    ensures
        r == y@.gt(value_of(XSMALL)),
{
    y.gt(Binary64 { bits: XSMALL })
}

/// What the far range evaluates.
#[derive(Clone, Copy, Debug, PartialEq, Eq, Structural)]
pub enum FarForm {
    /// The function has underflowed: zero.
    Vanished,
    /// The reciprocal of the argument over the square root of pi.
    Reciprocal,
    /// The asymptotic rational approximation.
    Asymptotic,
}

/// The form in the far range. From `XBIG` on, every function but the scaled
/// one has vanished, and the scaled one from `XMAX` on; between `XHUGE` and
/// `XMAX` the scaled one is the reciprocal form.
pub open spec fn far_form_of(function: ErrorFunction, y: Value) -> FarForm {
    if y.ge(value_of(XBIG)) && (function != ErrorFunction::Erfcx || y.ge(value_of(XMAX))) {
        FarForm::Vanished
    } else if y.ge(value_of(XBIG)) && y.ge(value_of(XHUGE)) {
        FarForm::Reciprocal
    } else {
        FarForm::Asymptotic
    }
}

/// Chooses what the far range evaluates for `y`, the absolute value of the
/// argument.
pub fn far_form(function: ErrorFunction, y: Binary64) -> (form: FarForm)
    ensures
        form == far_form_of(function, y@),
{
    if y.ge(Binary64 { bits: XBIG }) {
        let scaled = match function {
            ErrorFunction::Erfcx => true,
            _ => false,
        };
        if !scaled || y.ge(Binary64 { bits: XMAX }) {
            return FarForm::Vanished;
        }
        if y.ge(Binary64 { bits: XHUGE }) {
            return FarForm::Reciprocal;
        }
    }
    FarForm::Asymptotic
}

/// How the value for `|x|`, which is that of the complement or of the scaled
/// complement, becomes the value of the function at `x`.
#[derive(Clone, Copy, Debug, PartialEq, Eq, Structural)]
pub enum Reflection {
    /// One minus the value: the error function at an `x` not below zero.
    Complement,
    /// The negative of one minus the value: the error function below zero.
    NegatedComplement,
    /// The value as it is: a complement at an `x` not below zero.
    Keep,
    /// Two minus the value: the complement below zero.
    TwoMinus,
    /// The largest value: the scaled complement where it overflows.
    Overflow,
    /// Twice `exp(x^2)` minus the value: the scaled complement below zero.
    Mirror,
}

/// The reflection for a function and its argument.
pub open spec fn reflection_of(function: ErrorFunction, x: Value) -> Reflection {
    let negative = x.lt(value_of(0));
    match function {
        ErrorFunction::Erf => if negative {
            Reflection::NegatedComplement
        } else {
            Reflection::Complement
        },
        ErrorFunction::Erfc => if negative {
            Reflection::TwoMinus
        } else {
            Reflection::Keep
        },
        ErrorFunction::Erfcx => if negative {
            if x.lt(value_of(XNEG)) {
                Reflection::Overflow
            } else {
                Reflection::Mirror
            }
        } else {
            Reflection::Keep
        },
    }
}

/// Chooses how the value for `|x|` becomes the value at `x`, in the middle
/// and the far range.
pub fn reflection(function: ErrorFunction, x: Binary64) -> (r: Reflection)
    ensures
        r == reflection_of(function, x@),
{
    let negative = x.lt(Binary64 { bits: 0 });
    match function {
        ErrorFunction::Erf => if negative {
            Reflection::NegatedComplement
        } else {
            Reflection::Complement
        },
        ErrorFunction::Erfc => if negative {
            Reflection::TwoMinus
        } else {
            Reflection::Keep
        },
        ErrorFunction::Erfcx => if negative {
            if x.lt(Binary64 { bits: XNEG }) {
                Reflection::Overflow
            } else {
                Reflection::Mirror
            }
        } else {
            Reflection::Keep
        },
    }
}

/// How the normal distribution function is evaluated.
#[derive(Clone, Copy, Debug, PartialEq, Eq, Structural)]
pub enum NormCdfForm {
    /// The asymptotic series of the far lower tail.
    AsymptoticSeries,
    /// Half the complementary error function.
    ErrorFunction,
}

/// The form at `z`: the series from -2^26 up to -10, both included.
pub open spec fn norm_cdf_form_of(z: Value) -> NormCdfForm {
    if z.le(value_of(NORM_CDF_ASYMPTOTIC_EXPANSION_FIRST_THRESHOLD)) && z.ge(
        value_of(NORM_CDF_ASYMPTOTIC_EXPANSION_SECOND_THRESHOLD),
    ) {
        NormCdfForm::AsymptoticSeries
    } else {
        NormCdfForm::ErrorFunction
    }
}

/// Chooses how the normal distribution function is evaluated at `z`.
pub fn norm_cdf_form(z: Binary64) -> (form: NormCdfForm)
    ensures
        form == norm_cdf_form_of(z@),
{
    if z.le(Binary64 { bits: NORM_CDF_ASYMPTOTIC_EXPANSION_FIRST_THRESHOLD }) && z.ge(
        Binary64 { bits: NORM_CDF_ASYMPTOTIC_EXPANSION_SECOND_THRESHOLD },
    ) {
        NormCdfForm::AsymptoticSeries
    } else {
        NormCdfForm::ErrorFunction
    }
}

/// Whether the asymptotic series takes another term: the size `a` of the
/// last term is below `last_a`, that of the one before, and not below the
/// size of `resolution`, the machine epsilon times the sum.
pub fn series_goes_on(last_a: Binary64, a: Binary64, resolution: Binary64) -> (r: bool)
    ensures
        r == (last_a@.gt(a@) && a@.ge(fabs_of(resolution)@)),
{
    last_a.gt(a) && a.ge(fabs(resolution))
}

/// Where a probability lies for the inverse of the normal distribution.
#[derive(Clone, Copy, Debug, PartialEq, Eq, Structural)]
pub enum ProbabilityRegion {
    /// Zero or below: no probability of a finite deviate.
    AtOrBelowZero,
    /// One or above: likewise.
    AtOrAboveOne,
    /// Within 0.425 of one half.
    Central,
    /// In one of the two tails.
    Tail,
}

/// The region of the probability `u`, with `q` for `u - 1/2`.
pub open spec fn probability_region_of(u: Value, q: Value) -> ProbabilityRegion {
    if u.le(value_of(0)) {
        ProbabilityRegion::AtOrBelowZero
    } else if u.ge(value_of(ONE)) {
        ProbabilityRegion::AtOrAboveOne
    } else if q.abs().le(value_of(SPLIT1)) {
        ProbabilityRegion::Central
    } else {
        ProbabilityRegion::Tail
    }
}

/// Chooses the approximation of the inverse normal distribution for the
/// probability `u`, with `q` for `u - 1/2`.
pub fn probability_region(u: Binary64, q: Binary64) -> (region: ProbabilityRegion)
    ensures
        region == probability_region_of(u@, q@),
{
    if u.le(Binary64 { bits: 0 }) {
        ProbabilityRegion::AtOrBelowZero
    } else if u.ge(Binary64 { bits: ONE }) {
        ProbabilityRegion::AtOrAboveOne
    } else if fabs(q).le(Binary64 { bits: SPLIT1 }) {
        ProbabilityRegion::Central
    } else {
        ProbabilityRegion::Tail
    }
}

/// Whether a probability is in the lower half: `q`, the probability less one
/// half, is below zero. The lower tail is worked on with the probability
/// itself and gives a negative deviate, the upper one with its complement.
pub fn is_lower_half(q: Binary64) -> (lower: bool)
    ensures
        lower == q@.lt(value_of(0)),
{
    q.lt(Binary64 { bits: 0 })
}

/// Whether a tail probability is in the nearer part of its tail: `r`, the
/// square root of minus the logarithm of the probability, is below 5.
pub fn is_near_tail(r: Binary64) -> (near: bool)
    ensures
        near == r@.lt(value_of(SPLIT2)),
{
    r.lt(Binary64 { bits: SPLIT2 })
}

} // verus!
