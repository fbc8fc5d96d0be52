//! Where the two boundary maps of the price curve degenerate: below the
//! horizon of representable magnitudes they take constants in place of
//! quotients of what is as good as zero.
use vstd::prelude::*;
use crate::binary64::{Binary64, Value, value_of, cleared, lemma_magnitude_order, HIDDEN_BIT};
use crate::definitions::{fabs, sel, DENORMALISATION_CUTOFF};

verus! {

/// `|x|` is below the denormalisation cutoff: `x` is a zero or a denormal.
/// A NaN is not.
pub open spec fn below_horizon(x: Value) -> bool {
    x.abs().lt(value_of(DENORMALISATION_CUTOFF))
}

/// Whether a quantity is too small to divide by: a zero, or a denormal,
/// which is to say that its exponent field is zero.
pub fn is_below_horizon(x: Binary64) -> (r: bool)
    ensures
        r == below_horizon(x@),
        r == (cleared(x.bits) < HIDDEN_BIT),
{
    proof {
        lemma_magnitude_order(x.bits, DENORMALISATION_CUTOFF);
    }
    fabs(x).lt(Binary64 { bits: DENORMALISATION_CUTOFF })
}

/// How the lower map and its first derivative are evaluated.
#[derive(Clone, Copy, Debug, PartialEq, Eq, Structural)]
pub enum LowerMapBranch {
    /// `s` is below the horizon: the map is 0 and its derivative 1.
    Degenerate,
    /// `x` is below the horizon: the map is 0, its derivative by formula.
    Flat,
    /// Both by formula.
    General,
}

/// The branch of the lower map at `(x, s)`: the volatility is looked at
/// first.
pub open spec fn lower_map_branch_of(x: Value, s: Value) -> LowerMapBranch {
    if below_horizon(s) {
        LowerMapBranch::Degenerate
    } else if below_horizon(x) {
        LowerMapBranch::Flat
    } else {
        LowerMapBranch::General
    }
}

/// Chooses how the lower map and its first derivative are evaluated, so
/// that nothing is divided by a volatility below the horizon.
pub fn lower_map_branch(x: Binary64, s: Binary64) -> (branch: LowerMapBranch)
    ensures
        branch == lower_map_branch_of(x@, s@),
{
    if is_below_horizon(s) {
        LowerMapBranch::Degenerate
    } else if is_below_horizon(x) {
        LowerMapBranch::Flat
    } else {
        LowerMapBranch::General
    }
}

/// How the first two derivatives of the upper map are evaluated.
#[derive(Clone, Copy, Debug, PartialEq, Eq, Structural)]
pub enum UpperMapBranch {
    /// `x` is below the horizon: the derivatives are -1/2 and 0.
    Degenerate,
    /// Both by formula.
    General,
}

/// The branch of the upper map at `x`.
pub open spec fn upper_map_branch_of(x: Value) -> UpperMapBranch {
    if below_horizon(x) {
        UpperMapBranch::Degenerate
    } else {
        UpperMapBranch::General
    }
}

/// Chooses how the derivatives of the upper map are evaluated.
pub fn upper_map_branch(x: Binary64) -> (branch: UpperMapBranch)
    ensures
        branch == upper_map_branch_of(x@),
{
    if is_below_horizon(x) {
        UpperMapBranch::Degenerate
    } else {
        UpperMapBranch::General
    }
}

/// The volatility that the lower map's inverse gives for a map value `f`:
/// positive zero where `f` is below the horizon, and `inverted`, which the
/// caller computed by formula, otherwise.
pub fn inverse_f_lower_map(f: Binary64, inverted: Binary64) -> (s: Binary64)
    ensures
        s == if below_horizon(f@) { Binary64 { bits: 0 } } else { inverted },
{
    sel(is_below_horizon(f), Binary64 { bits: 0 }, inverted)
}

/// The horizon at work: a zero and the largest denormal are below it, the
/// smallest normal number is not, and neither is a NaN. So a volatility of
/// zero makes the lower map degenerate whatever `x` is, and an `x` of zero
/// makes it flat, and the upper map degenerate, at every volatility that is
/// not below the horizon itself.
pub proof fn lemma_horizon(x: Value, s: Value)
    ensures
        below_horizon(value_of(0)),
        below_horizon(value_of(0x8000_0000_0000_0000)),
        below_horizon(value_of(0x000F_FFFF_FFFF_FFFF)),
        !below_horizon(value_of(DENORMALISATION_CUTOFF)),
        !below_horizon(Value::NaN),
        lower_map_branch_of(x, value_of(0)) == LowerMapBranch::Degenerate,
        !below_horizon(s) ==> lower_map_branch_of(value_of(0), s) == LowerMapBranch::Flat,
        upper_map_branch_of(value_of(0)) == UpperMapBranch::Degenerate,
{
    lemma_magnitude_order(0, DENORMALISATION_CUTOFF);
    lemma_magnitude_order(0x8000_0000_0000_0000, DENORMALISATION_CUTOFF);
    lemma_magnitude_order(0x000F_FFFF_FFFF_FFFF, DENORMALISATION_CUTOFF);
}

} // verus!
