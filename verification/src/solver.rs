//! The guards at the entry of a solve, the choice of the segment that the
//! first guess is built on, and the objective that the refinement works with.
use vstd::prelude::*;
use crate::binary64::{Binary64, Value, value_of, lemma_magnitude_order};
use crate::definitions::{
    sel, floor_at_zero, floored_of, DBL_MAX, DBL_MIN, DENORMALISATION_CUTOFF, MINUS_ONE, ONE, SQRT_DBL_MAX,
    VOLATILITY_VALUE_TO_SIGNAL_PRICE_IS_ABOVE_MAXIMUM,
    VOLATILITY_VALUE_TO_SIGNAL_PRICE_IS_BELOW_INTRINSIC,
};

verus! {

/// Bits of the negative of the square root of the largest finite number.
pub const MINUS_SQRT_DBL_MAX: u64 = 0xDFEF_FFFF_FFFF_FFFF;

/// Where a price lies against the prices that some volatility can give.
#[derive(Clone, Copy, Debug, PartialEq, Eq, Structural)]
pub enum PriceClass {
    /// Below the intrinsic value: no volatility gives it.
    BelowIntrinsic,
    /// At the largest possible price or above: no finite volatility gives it.
    AboveMaximum,
    /// Nothing above the intrinsic value: the volatility is zero.
    Worthless,
    /// Strictly between: there is a volatility to find.
    Solvable,
}

/// The volatility that stands for a price outside the solvable range, and
/// nothing for a solvable one.
pub open spec fn degenerate_volatility_of(class: PriceClass) -> Option<Binary64> {
    match class {
        PriceClass::BelowIntrinsic => Some(
            Binary64 { bits: VOLATILITY_VALUE_TO_SIGNAL_PRICE_IS_BELOW_INTRINSIC },
        ),
        PriceClass::AboveMaximum => Some(
            Binary64 { bits: VOLATILITY_VALUE_TO_SIGNAL_PRICE_IS_ABOVE_MAXIMUM },
        ),
        PriceClass::Worthless => Some(Binary64 { bits: 0 }),
        PriceClass::Solvable => None,
    }
}

/// The class of an option price against its intrinsic value and the largest
/// price that the option can have. The lower test comes first, the upper
/// one second; a price that is exactly the intrinsic value is worthless.
pub open spec fn price_class_of(price: Value, intrinsic: Value, max_price: Value) -> PriceClass {
    if price.lt(intrinsic) {
        PriceClass::BelowIntrinsic
    } else if price.ge(max_price) {
        PriceClass::AboveMaximum
    } else if price.same(intrinsic) {
        PriceClass::Worthless
    } else {
        PriceClass::Solvable
    }
}

/// The class of a normalised price that has its intrinsic value taken off,
/// against the largest normalised price `b_max`: worthless where it is zero
/// or less, or below the denormalisation cutoff.
pub open spec fn normalised_price_class_of(beta: Value, b_max: Value) -> PriceClass {
    if beta.le(value_of(0)) || beta.lt(value_of(DENORMALISATION_CUTOFF)) {
        PriceClass::Worthless
    } else if beta.ge(b_max) {
        PriceClass::AboveMaximum
    } else {
        PriceClass::Solvable
    }
}

/// Classifies an option price: below the intrinsic value, at or above the
/// largest price (the forward for a call, the strike for a put), exactly
/// the intrinsic value, or in between.
pub fn classify_price(price: Binary64, intrinsic: Binary64, max_price: Binary64) -> (class: PriceClass)
    ensures
        class == price_class_of(price@, intrinsic@, max_price@),
{
    if price.lt(intrinsic) {
        PriceClass::BelowIntrinsic
    } else if price.ge(max_price) {
        PriceClass::AboveMaximum
    } else if price.same(intrinsic) {
        PriceClass::Worthless
    } else {
        PriceClass::Solvable
    }
}

/// Classifies a normalised price that is given with its intrinsic value
/// still in it: below intrinsic where the excess `beta` over the intrinsic
/// value is negative.
pub fn classify_normalised_excess(beta: Binary64) -> (class: PriceClass)
    ensures
        class == if beta@.lt(value_of(0)) { PriceClass::BelowIntrinsic } else { PriceClass::Solvable },
{
    if beta.lt(Binary64 { bits: 0 }) {
        PriceClass::BelowIntrinsic
    } else {
        PriceClass::Solvable
    }
}

/// Classifies a normalised out-of-the-money price `beta`: worthless where
/// it is zero or less or a denormal, which is to say below the smallest
/// normal number; above the maximum where it is not and reaches `b_max`,
/// which is `exp(x / 2)`.
pub fn classify_normalised_price(beta: Binary64, b_max: Binary64) -> (class: PriceClass)
    ensures
        class == normalised_price_class_of(beta@, b_max@),
        class == PriceClass::Worthless <==> beta@.lt(value_of(DBL_MIN)),
        class != PriceClass::BelowIntrinsic,
{
    proof {
        lemma_magnitude_order(0, DENORMALISATION_CUTOFF);
    }
    let zero = Binary64 { bits: 0 };
    if beta.le(zero) || beta.lt(Binary64 { bits: DENORMALISATION_CUTOFF }) {
        PriceClass::Worthless
    } else if beta.ge(b_max) {
        PriceClass::AboveMaximum
    } else {
        PriceClass::Solvable
    }
}

/// The volatility that is returned without a solve: the sentinel for a
/// price below intrinsic, the sentinel for one above the maximum, zero for
/// a worthless one; nothing for a solvable price.
pub fn degenerate_volatility(class: PriceClass) -> (r: Option<Binary64>)
    ensures
        r == degenerate_volatility_of(class),
        r is None <==> class == PriceClass::Solvable,
{
    match class {
        PriceClass::BelowIntrinsic => Some(
            Binary64 { bits: VOLATILITY_VALUE_TO_SIGNAL_PRICE_IS_BELOW_INTRINSIC },
        ),
        PriceClass::AboveMaximum => Some(
            Binary64 { bits: VOLATILITY_VALUE_TO_SIGNAL_PRICE_IS_ABOVE_MAXIMUM },
        ),
        PriceClass::Worthless => Some(Binary64 { bits: 0 }),
        PriceClass::Solvable => None,
    }
}

/// The intrinsic value of an option: the floor at zero of strike less
/// forward for a put (`q < 0`), of forward less strike for a call.
pub fn intrinsic_value(q: Binary64, strike_less_forward: Binary64, forward_less_strike: Binary64) -> (r: Binary64)
    ensures
        r == floored_of(if q@.lt(value_of(0)) { strike_less_forward } else { forward_less_strike }),
        r@ is Number,
        r@.ge(value_of(0)),
{
    floor_at_zero(sel(q.lt(Binary64 { bits: 0 }), strike_less_forward, forward_less_strike))
}

/// The largest price an option can have: the strike for a put (`q < 0`),
/// the forward for a call.
pub fn maximum_price(q: Binary64, forward: Binary64, strike: Binary64) -> (r: Binary64)
    ensures
        r == if q@.lt(value_of(0)) { strike } else { forward },
{
    sel(q.lt(Binary64 { bits: 0 }), strike, forward)
}

/// The sign that turns a call's payoff into the option's: -1 for a put
/// (`q < 0`), and 1 for a call.
pub fn option_sign(q: Binary64) -> (r: Binary64)
    ensures
        r == if q@.lt(value_of(0)) { Binary64 { bits: MINUS_ONE } } else { Binary64 { bits: ONE } },
{
    sel(q.lt(Binary64 { bits: 0 }), Binary64 { bits: MINUS_ONE }, Binary64 { bits: ONE })
}

/// The log-moneyness at which the call of equal price is evaluated: `-x`
/// for a put (`q < 0`), `x` for a call.
pub fn call_coordinate(x: Binary64, q: Binary64) -> (r: Binary64)
    ensures
        r == if q@.lt(value_of(0)) { x.neg_of() } else { x },
{
    sel(q.lt(Binary64 { bits: 0 }), x.neg(), x)
}

/// The volatilities at the bounds of a price.
///
/// A price below the intrinsic value has the sentinel for that, whatever
/// the largest price is. A price at the largest price or above has the
/// sentinel for that, where the intrinsic value is not above the largest
/// price. A price that is exactly the intrinsic value has the volatility
/// zero, where it is below the largest price. Every other price goes on to
/// be normalised.
///
/// There, an excess over the intrinsic value that is zero or less, or below
/// the denormalisation cutoff, has the volatility zero, whatever the
/// largest normalised price is; one that is not, and reaches the largest
/// normalised price, has the sentinel for that; and no normalised price is
/// called below intrinsic.
pub proof fn lemma_boundary_sentinels(price: Value, intrinsic: Value, max_price: Value, beta: Value, b_max: Value)
    ensures
        price.lt(intrinsic) ==> degenerate_volatility_of(price_class_of(price, intrinsic, max_price)) == Some(
            Binary64 { bits: VOLATILITY_VALUE_TO_SIGNAL_PRICE_IS_BELOW_INTRINSIC },
        ),
        intrinsic.le(max_price) && price.ge(max_price) ==> degenerate_volatility_of(
            price_class_of(price, intrinsic, max_price),
        ) == Some(Binary64 { bits: VOLATILITY_VALUE_TO_SIGNAL_PRICE_IS_ABOVE_MAXIMUM }),
        !price.lt(intrinsic) && price.ge(max_price) ==> degenerate_volatility_of(
            price_class_of(price, intrinsic, max_price),
        ) == Some(Binary64 { bits: VOLATILITY_VALUE_TO_SIGNAL_PRICE_IS_ABOVE_MAXIMUM }),
        price.same(intrinsic) && !price.ge(max_price) ==> degenerate_volatility_of(
            price_class_of(price, intrinsic, max_price),
        ) == Some(Binary64 { bits: 0 }),
        price.same(intrinsic) && intrinsic.lt(max_price) ==> degenerate_volatility_of(
            price_class_of(price, intrinsic, max_price),
        ) == Some(Binary64 { bits: 0 }),
        price.gt(intrinsic) && price.lt(max_price) ==> degenerate_volatility_of(
            price_class_of(price, intrinsic, max_price),
        ) is None,
        beta.le(value_of(0)) || beta.lt(value_of(DENORMALISATION_CUTOFF)) ==> degenerate_volatility_of(
            normalised_price_class_of(beta, b_max),
        ) == Some(Binary64 { bits: 0 }),
        beta.ge(value_of(DENORMALISATION_CUTOFF)) && beta.ge(b_max) ==> degenerate_volatility_of(
            normalised_price_class_of(beta, b_max),
        ) == Some(Binary64 { bits: VOLATILITY_VALUE_TO_SIGNAL_PRICE_IS_ABOVE_MAXIMUM }),
        beta.ge(value_of(DENORMALISATION_CUTOFF)) && beta.lt(b_max) ==> degenerate_volatility_of(
            normalised_price_class_of(beta, b_max),
        ) is None,
        normalised_price_class_of(beta, b_max) != PriceClass::BelowIntrinsic,
{
    lemma_magnitude_order(0, DENORMALISATION_CUTOFF);
}

/// The stretch of the price curve that a price falls on. The curve is cut
/// at three volatilities: the central one, `s_c = sqrt(2 |x|)`, and the two
/// that one secant step from it gives, `s_l` below and `s_h` above.
#[derive(Clone, Copy, Debug, PartialEq, Eq, Structural)]
pub enum Segment {
    /// Below the price at `s_l`.
    Lowest,
    /// From the price at `s_l` up to the price at `s_c`.
    LowerMiddle,
    /// From the price at `s_c` up to the price at `s_h`.
    UpperMiddle,
    /// Above the price at `s_h`.
    Uppermost,
}

/// The function of the volatility whose root the refinement seeks. Each is
/// the price curve in the transform that conditions it best on its stretch.
#[derive(Clone, Copy, Debug, PartialEq, Eq, Structural)]
pub enum Objective {
    /// `1 / ln b(s) - 1 / ln beta`, for the lower tail.
    ReciprocalLogarithm,
    /// `b(s) - beta`, for the middle.
    Price,
    /// `ln(b_max - beta) - ln(b_max - b(s))`, for the upper tail.
    LogarithmOfComplement,
}

/// The segment of a price below the central price `b_c`, once the price
/// `b_l` at the lower cut is known.
pub open spec fn lower_segment_of(beta: Value, b_l: Value) -> Segment {
    if beta.lt(b_l) {
        Segment::Lowest
    } else {
        Segment::LowerMiddle
    }
}

/// The segment of a price not below the central price, once the price `b_h`
/// at the upper cut is known.
pub open spec fn upper_segment_of(beta: Value, b_h: Value) -> Segment {
    if beta.le(b_h) {
        Segment::UpperMiddle
    } else {
        Segment::Uppermost
    }
}

/// The objective on a segment: the lowest has its own; so has the
/// uppermost, but only for a price above half the largest price.
pub open spec fn objective_of(segment: Segment, beta: Value, half_b_max: Value) -> Objective {
    match segment {
        Segment::Lowest => Objective::ReciprocalLogarithm,
        Segment::LowerMiddle => Objective::Price,
        Segment::UpperMiddle => Objective::Price,
        Segment::Uppermost => if beta.gt(half_b_max) {
            Objective::LogarithmOfComplement
        } else {
            Objective::Price
        },
    }
}

/// Whether the price lies below the central price `b_c`, so that the lower
/// cut is needed and not the upper one.
pub fn is_below_centre(beta: Binary64, b_c: Binary64) -> (r: bool)
    ensures
        r == beta@.lt(b_c@),
{
    beta.lt(b_c)
}

/// The segment of a price that lies below the central price.
pub fn lower_segment(beta: Binary64, b_l: Binary64) -> (segment: Segment)
    ensures
        segment == lower_segment_of(beta@, b_l@),
{
    if beta.lt(b_l) {
        Segment::Lowest
    } else {
        Segment::LowerMiddle
    }
}

/// The segment of a price that does not lie below the central price.
pub fn upper_segment(beta: Binary64, b_h: Binary64) -> (segment: Segment)
    ensures
        segment == upper_segment_of(beta@, b_h@),
{
    if beta.le(b_h) {
        Segment::UpperMiddle
    } else {
        Segment::Uppermost
    }
}

/// The objective that the refinement works with on a segment, for the
/// price `beta` and `half_b_max`, half the largest price.
pub fn objective(segment: Segment, beta: Binary64, half_b_max: Binary64) -> (r: Objective)
    ensures
        r == objective_of(segment, beta@, half_b_max@),
{
    match segment {
        Segment::Lowest => Objective::ReciprocalLogarithm,
        Segment::LowerMiddle => Objective::Price,
        Segment::UpperMiddle => Objective::Price,
        Segment::Uppermost => if beta.gt(half_b_max) {
            Objective::LogarithmOfComplement
        } else {
            Objective::Price
        },
    }
}

/// The upper cut: one secant step `stepped` above the centre where the
/// vega `v_c` there is more than the smallest normal number, and the centre
/// `s_c` itself where it is not.
pub fn upper_cut(v_c: Binary64, stepped: Binary64, s_c: Binary64) -> (s_h: Binary64)
    ensures
        s_h == if v_c@.gt(value_of(DBL_MIN)) { stepped } else { s_c },
{
    sel(v_c.gt(Binary64 { bits: DBL_MIN }), stepped, s_c)
}

/// The bracket that a segment starts the refinement with, as its two ends.
/// `cut` is `s_l` on the two lower segments and `s_h` on the two upper ones.
pub open spec fn initial_bracket_of(segment: Segment, cut: Binary64, s_c: Binary64) -> (Binary64, Binary64) {
    match segment {
        Segment::Lowest => (Binary64 { bits: DBL_MIN }, cut),
        Segment::LowerMiddle => (cut, s_c),
        Segment::UpperMiddle => (s_c, cut),
        Segment::Uppermost => (cut, Binary64 { bits: DBL_MAX }),
    }
}

/// The bracket that encloses the root on a segment: between two cuts in the
/// middle, and from the smallest normal number or up to the largest finite
/// one at the two ends.
pub fn initial_bracket(segment: Segment, cut: Binary64, s_c: Binary64) -> (bracket: (Binary64, Binary64))
    ensures
        bracket == initial_bracket_of(segment, cut, s_c),
{
    match segment {
        Segment::Lowest => (Binary64 { bits: DBL_MIN }, cut),
        Segment::LowerMiddle => (cut, s_c),
        Segment::UpperMiddle => (s_c, cut),
        Segment::Uppermost => (cut, Binary64 { bits: DBL_MAX }),
    }
}

/// Whether the second derivative of the upper map is small enough in size
/// to interpolate with: strictly within the square root of the largest
/// finite number, both ways. A NaN is not.
pub fn is_usable_curvature(second_derivative: Binary64) -> (r: bool)
    ensures
        r == (second_derivative@.gt(value_of(MINUS_SQRT_DBL_MAX)) && second_derivative@.lt(
            value_of(SQRT_DBL_MAX),
        )),
{
    second_derivative.gt(Binary64 { bits: MINUS_SQRT_DBL_MAX }) && second_derivative.lt(
        Binary64 { bits: SQRT_DBL_MAX },
    )
}

/// The map value that the first guess is inverted from: `interpolated`
/// where that is above zero, and `quadratic`, the value of the parabola
/// through the same points, where roundoff has driven it to zero or below.
/// A NaN is kept.
pub fn guarded_map_value(interpolated: Binary64, quadratic: Binary64) -> (f: Binary64)
    ensures
        f == if interpolated@.le(value_of(0)) { quadratic } else { interpolated },
{
    sel(interpolated.le(Binary64 { bits: 0 }), quadratic, interpolated)
}

} // verus!
