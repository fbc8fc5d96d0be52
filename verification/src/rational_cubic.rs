//! The decisions of the rational cubic interpolation of Delbourgo and
//! Gregory: which form the interpolant takes, and which control parameter
//! keeps it in shape.
//!
//! Sums, differences, products and quotients come from the caller; what is
//! decided on them, and the parameter that results, is fixed here.
use vstd::prelude::*;
use crate::binary64::{Binary64, Value, value_of};
use crate::definitions::{is_zero, is_zero_of, max, max_of, fabs, fabs_of};

verus! {

/// Bits of `2 / epsilon^2`, which is 2^105: at this control parameter and
/// above, the interpolant is the straight line.
pub const MAXIMUM_RATIONAL_CUBIC_CONTROL_PARAMETER_VALUE: u64 = 0x4680_0000_0000_0000;

/// Bits of `-(1 - sqrt(epsilon))`: the least control parameter, just above -1.
pub const MINIMUM_RATIONAL_CUBIC_CONTROL_PARAMETER_VALUE: u64 = 0xBFEF_FFFF_F800_0000;

/// Bits of the most negative finite number, below every candidate parameter.
pub const LEAST_CANDIDATE: u64 = 0xFFEF_FFFF_FFFF_FFFF;

/// The form that the interpolant takes between two nodes.
#[derive(Clone, Copy, Debug, PartialEq, Eq, Structural)]
pub enum InterpolationForm {
    /// The nodes coincide: the mean of the two ordinates.
    Average,
    /// The quotient of the cubic by the quadratic.
    Rational,
    /// The straight line through the two nodes.
    Linear,
}

/// The form for a node distance `h` and a control parameter `r`.
pub open spec fn interpolation_form_of(h: Value, r: Value) -> InterpolationForm {
    if h.abs().le(value_of(0)) {
        InterpolationForm::Average
    } else if r.lt(value_of(MAXIMUM_RATIONAL_CUBIC_CONTROL_PARAMETER_VALUE)) {
        InterpolationForm::Rational
    } else {
        InterpolationForm::Linear
    }
}

/// Chooses the form of the interpolant from the distance `h = x_r - x_l` of
/// the nodes and the control parameter `r`. A NaN for `r` gives the line.
pub fn rational_cubic_interpolation_form(h: Binary64, r: Binary64) -> (form: InterpolationForm)
    ensures
        form == interpolation_form_of(h@, r@),
{
    if fabs(h).le(Binary64 { bits: 0 }) {
        InterpolationForm::Average
    } else if r.lt(Binary64 { bits: MAXIMUM_RATIONAL_CUBIC_CONTROL_PARAMETER_VALUE }) {
        InterpolationForm::Rational
    } else {
        InterpolationForm::Linear
    }
}

/// The fraction whose value is the control parameter that gives the
/// interpolant a wanted second derivative at one end.
#[derive(Clone, Copy, Debug)]
pub struct SecondDerivativeFit {
    /// Half the node distance times the wanted second derivative, plus the
    /// difference of the two slopes.
    pub numerator: Binary64,
    /// The secant slope less the left slope, for a fit at the left end; the
    /// right slope less the secant slope, for one at the right.
    pub denominator: Binary64,
    /// `numerator / denominator`.
    pub quotient: Binary64,
}

impl SecondDerivativeFit {
    /// The fitted parameter: zero for a vanishing numerator; for a vanishing
    /// denominator the largest parameter or the least, by the numerator's
    /// sign; the quotient otherwise.
    pub open spec fn parameter(self) -> Binary64 {
        if is_zero_of(self.numerator) {
            Binary64 { bits: 0 }
        } else if is_zero_of(self.denominator) {
            if self.numerator@.gt(value_of(0)) {
                Binary64 { bits: MAXIMUM_RATIONAL_CUBIC_CONTROL_PARAMETER_VALUE }
            } else {
                Binary64 { bits: MINIMUM_RATIONAL_CUBIC_CONTROL_PARAMETER_VALUE }
            }
        } else {
            self.quotient
        }
    }
}

/// The control parameter that fits a second derivative at one end of the
/// interval, guarded against a division by what is as good as zero.
pub fn rational_cubic_control_parameter_to_fit_second_derivative(fit: SecondDerivativeFit) -> (r: Binary64)
    ensures
        r == fit.parameter(),
{
    if is_zero(fit.numerator) {
        Binary64 { bits: 0 }
    } else if is_zero(fit.denominator) {
        if fit.numerator.gt(Binary64 { bits: 0 }) {
            Binary64 { bits: MAXIMUM_RATIONAL_CUBIC_CONTROL_PARAMETER_VALUE }
        } else {
            Binary64 { bits: MINIMUM_RATIONAL_CUBIC_CONTROL_PARAMETER_VALUE }
        }
    } else {
        fit.quotient
    }
}

/// The slopes at the two nodes and of the secant, with what the shape
/// conditions are read from.
#[derive(Clone, Copy, Debug)]
pub struct Slopes {
    /// The slope at the left node.
    pub d_l: Binary64,
    /// The slope at the right node.
    pub d_r: Binary64,
    /// The slope of the secant.
    pub s: Binary64,
    /// `d_l * s`.
    pub left_product: Binary64,
    /// `d_r * s`.
    pub right_product: Binary64,
    /// `s - d_l`.
    pub s_m_d_l: Binary64,
    /// `d_r - s`.
    pub d_r_m_s: Binary64,
    /// `(d_r + d_l) / s`.
    pub monotone_bound: Binary64,
    /// `(d_r - d_l) / (d_r - s)`.
    pub right_ratio: Binary64,
    /// `(d_r - d_l) / (s - d_l)`.
    pub left_ratio: Binary64,
}

impl Slopes {
    /// Neither end slope points against the secant.
    pub open spec fn monotonic(self) -> bool {
        self.left_product@.ge(value_of(0)) && self.right_product@.ge(value_of(0))
    }

    /// The slopes rise from left to right through the secant's.
    pub open spec fn convex(self) -> bool {
        self.d_l@.le(self.s@) && self.s@.le(self.d_r@)
    }

    /// The slopes fall from left to right through the secant's.
    pub open spec fn concave(self) -> bool {
        self.d_l@.ge(self.s@) && self.s@.ge(self.d_r@)
    }

    /// The least parameter that keeps the interpolant monotone, where the
    /// data are; the line where the secant is flat and shape comes first.
    pub open spec fn monotone_candidate(self, prefer_shape: bool) -> Binary64 {
        if self.monotonic() && !is_zero_of(self.s) {
            self.monotone_bound
        } else if self.monotonic() && prefer_shape {
            Binary64 { bits: MAXIMUM_RATIONAL_CUBIC_CONTROL_PARAMETER_VALUE }
        } else {
            Binary64 { bits: LEAST_CANDIDATE }
        }
    }

    /// The least parameter that keeps the interpolant convex or concave,
    /// where the data are; the line where a slope meets the secant's and
    /// shape comes first, or where the data are monotone only.
    pub open spec fn curvature_candidate(self, prefer_shape: bool) -> Binary64 {
        if self.convex() || self.concave() {
            if !(is_zero_of(self.s_m_d_l) || is_zero_of(self.d_r_m_s)) {
                max_of(fabs_of(self.right_ratio), fabs_of(self.left_ratio))
            } else if prefer_shape {
                Binary64 { bits: MAXIMUM_RATIONAL_CUBIC_CONTROL_PARAMETER_VALUE }
            } else {
                Binary64 { bits: LEAST_CANDIDATE }
            }
        } else if self.monotonic() && prefer_shape {
            Binary64 { bits: MAXIMUM_RATIONAL_CUBIC_CONTROL_PARAMETER_VALUE }
        } else {
            Binary64 { bits: LEAST_CANDIDATE }
        }
    }

    /// The least control parameter for these slopes: the floor itself where
    /// the data have no shape to keep, and otherwise the largest of the
    /// floor and the two candidates.
    pub open spec fn minimum_parameter(self, prefer_shape: bool) -> Binary64 {
        let floor = Binary64 { bits: MINIMUM_RATIONAL_CUBIC_CONTROL_PARAMETER_VALUE };
        if !self.monotonic() && !self.convex() && !self.concave() {
            floor
        } else {
            max_of(
                floor,
                max_of(self.monotone_candidate(prefer_shape), self.curvature_candidate(prefer_shape)),
            )
        }
    }
}

/// The least control parameter with which the interpolant keeps the shape
/// of the data: monotone, convex or concave. The result is never below the
/// least parameter of all: it is that or above, or a NaN.
pub fn minimum_rational_cubic_control_parameter(slopes: Slopes, prefer_shape_preservation_over_smoothness: bool) -> (r: Binary64)
    ensures
        r == slopes.minimum_parameter(prefer_shape_preservation_over_smoothness),
        r@ is NaN || r@.ge(value_of(MINIMUM_RATIONAL_CUBIC_CONTROL_PARAMETER_VALUE)),
{
    let zero = Binary64 { bits: 0 };
    let floor = Binary64 { bits: MINIMUM_RATIONAL_CUBIC_CONTROL_PARAMETER_VALUE };
    let line = Binary64 { bits: MAXIMUM_RATIONAL_CUBIC_CONTROL_PARAMETER_VALUE };
    let monotonic = slopes.left_product.ge(zero) && slopes.right_product.ge(zero);
    let convex = slopes.d_l.le(slopes.s) && slopes.s.le(slopes.d_r);
    let concave = slopes.d_l.ge(slopes.s) && slopes.s.ge(slopes.d_r);
    if !monotonic && !convex && !concave {
        return floor;
    }
    let mut r1 = Binary64 { bits: LEAST_CANDIDATE };
    let mut r2 = r1;
    if monotonic {
        if !is_zero(slopes.s) {
            r1 = slopes.monotone_bound;
        } else if prefer_shape_preservation_over_smoothness {
            r1 = line;
        }
    }
    if convex || concave {
        if !(is_zero(slopes.s_m_d_l) || is_zero(slopes.d_r_m_s)) {
            r2 = max(fabs(slopes.right_ratio), fabs(slopes.left_ratio));
        } else if prefer_shape_preservation_over_smoothness {
            r2 = line;
        }
    } else if monotonic && prefer_shape_preservation_over_smoothness {
        r2 = line;
    }
    max(floor, max(r1, r2))
}

/// The control parameter that fits a second derivative at one end and still
/// keeps the shape of the data: the larger of the fitted parameter and the
/// least one that keeps the shape.
pub fn convex_rational_cubic_control_parameter_to_fit_second_derivative(
    fit: SecondDerivativeFit,
    slopes: Slopes,
    prefer_shape_preservation_over_smoothness: bool,
) -> (r: Binary64)
    ensures
        r == max_of(fit.parameter(), slopes.minimum_parameter(prefer_shape_preservation_over_smoothness)),
{
    let r = rational_cubic_control_parameter_to_fit_second_derivative(fit);
    let r_min = minimum_rational_cubic_control_parameter(slopes, prefer_shape_preservation_over_smoothness);
    max(r, r_min)
}

} // verus!
