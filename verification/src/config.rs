//! The solver's tunables: plain values that the caller passes on, each with
//! the default that the library has always used.
use vstd::prelude::*;
use crate::binary64::Binary64;

verus! {

/// Iteration budget of the root finder unless the caller passes one of its own.
pub const DEFAULT_MAXIMUM_ITERATIONS: usize = 2;

/// Output selector that asks for the volatility.
pub const OUTPUT_VOLATILITY: usize = 0;

/// Order of the full third-order Householder correction.
pub const DEFAULT_HOUSEHOLDER_METHOD_ORDER: usize = 4;

/// The correction that one refinement step applies to the Newton step.
#[derive(Clone, Copy, Debug, PartialEq, Eq, Structural)]
pub enum HouseholderScheme {
    /// The Newton step as it is: the factor is one.
    Newton,
    /// Halley's second-order correction.
    Halley,
    /// The third-order Householder correction.
    Householder,
}

/// The scheme that a method order selects: above 3 the third-order
/// correction, exactly 3 Halley's, and Newton's below.
pub open spec fn scheme_of_order(order: usize) -> HouseholderScheme {
    if order > 3 {
        HouseholderScheme::Householder
    } else if order > 2 {
        HouseholderScheme::Halley
    } else {
        HouseholderScheme::Newton
    }
}

/// The number of refinement steps that a solve may take when the caller names none.
pub fn get_implied_volatility_maximum_iterations() -> (n: usize)
    ensures
        n == DEFAULT_MAXIMUM_ITERATIONS,
{
    DEFAULT_MAXIMUM_ITERATIONS
}

/// The default output selector: zero, which asks for the volatility.
pub fn get_implied_volatility_output_type() -> (kind: usize)
    ensures
        kind == OUTPUT_VOLATILITY,
{
    OUTPUT_VOLATILITY
}

/// The default method order: the full third-order correction.
pub fn get_implied_volatility_householder_method_order() -> (order: usize)
    ensures
        order == DEFAULT_HOUSEHOLDER_METHOD_ORDER,
        scheme_of_order(order) == HouseholderScheme::Householder,
{
    DEFAULT_HOUSEHOLDER_METHOD_ORDER
}

/// What a solve hands back: the iteration count when the selector is
/// positive, and the volatility otherwise.
pub fn implied_volatility_output(output_type: usize, count: Binary64, volatility: Binary64) -> (r: Binary64)
    ensures
        r == if output_type > 0 { count } else { volatility },
{
    if output_type > 0 {
        count
    } else {
        volatility
    }
}

/// The correction scheme for a method order.
pub fn householder_scheme(order: usize) -> (scheme: HouseholderScheme)
    ensures
        scheme == scheme_of_order(order),
{
    if order > 3 {
        HouseholderScheme::Householder
    } else if order > 2 {
        HouseholderScheme::Halley
    } else {
        HouseholderScheme::Newton
    }
}

} // verus!
