//! The decisions of Peter Jaeckel's "Let's be rational": the inversion of the
//! Black formula to an implied volatility by a transformed rational guess
//! and Householder refinement, with everything that is decided on the way
//! verified, and nothing rounded.
//!
//! The library holds no floating-point arithmetic. A double comes in as its
//! 64 bits, a [`binary64::Binary64`], whose order and sign the library reads
//! itself. Sums, products, exponentials and the like are the caller's: each
//! decision takes as arguments the quantities that it is made on, and says
//! in its contract which way it goes for which values.
//!
//! - [`binary64`]: the data, the values that they denote, and their order.
//! - [`definitions`]: constants, and the scalar helpers that need no rounding.
//! - [`config`]: the iteration budget and the other tunables.
//! - [`special_functions`]: which approximation of an error function or of
//!   the normal distribution applies at an argument.
//! - [`evaluator`]: which formula evaluates the normalised Black call.
//! - [`boundary_maps`]: where the maps for the two ends of the price curve
//!   degenerate.
//! - [`rational_cubic`]: the form of the interpolant and its control
//!   parameter.
//! - [`solver`]: the guards at the entry of a solve, and the segment and the
//!   objective for a price.
//! - [`root_finder`]: the safeguarded iteration, pass by pass.
pub mod binary64;
pub mod boundary_maps;
pub mod config;
pub mod definitions;
pub mod evaluator;
pub mod rational_cubic;
pub mod root_finder;
pub mod solver;
pub mod special_functions;
