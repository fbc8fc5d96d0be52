use lets_be_rational::binary64::Binary64;
use lets_be_rational::boundary_maps::{
    inverse_f_lower_map, is_below_horizon, lower_map_branch, upper_map_branch, LowerMapBranch, UpperMapBranch,
};

fn to(x: f64) -> Binary64 {
    Binary64::from_bits(x.to_bits())
}

const LARGEST_DENORMAL: f64 = 2.225073858507201e-308;

#[test]
fn zeros_and_denormals_are_below_the_horizon() {
    for &x in &[0.0, -0.0, 5e-324, -5e-324, 1e-310, -1e-310, LARGEST_DENORMAL, -LARGEST_DENORMAL] {
        assert!(is_below_horizon(to(x)), "{:e}", x);
    }
    for &x in &[f64::MIN_POSITIVE, -f64::MIN_POSITIVE, 1e-300, 1.0, -1.0, f64::MAX, f64::INFINITY, f64::NAN] {
        assert!(!is_below_horizon(to(x)), "{:e}", x);
    }
    assert!(LARGEST_DENORMAL < f64::MIN_POSITIVE);
}

#[test]
fn the_lower_map_degenerates_below_the_horizon() {
    // No volatility to divide by, whatever the moneyness.
    assert_eq!(LowerMapBranch::Degenerate, lower_map_branch(to(-1.0), to(0.0)));
    assert_eq!(LowerMapBranch::Degenerate, lower_map_branch(to(3.0), to(1e-310)));
    assert_eq!(LowerMapBranch::Degenerate, lower_map_branch(to(0.0), to(0.0)));
    assert_eq!(LowerMapBranch::Degenerate, lower_map_branch(to(f64::NAN), to(-0.0)));
    // At the money.
    assert_eq!(LowerMapBranch::Flat, lower_map_branch(to(0.0), to(0.3)));
    assert_eq!(LowerMapBranch::Flat, lower_map_branch(to(-1e-310), to(f64::MIN_POSITIVE)));
    // Everywhere else.
    assert_eq!(LowerMapBranch::General, lower_map_branch(to(-1.0), to(0.3)));
    assert_eq!(LowerMapBranch::General, lower_map_branch(to(f64::MIN_POSITIVE), to(f64::MIN_POSITIVE)));
    assert_eq!(LowerMapBranch::General, lower_map_branch(to(f64::NAN), to(f64::NAN)));
}

#[test]
fn the_upper_map_degenerates_at_the_money() {
    assert_eq!(UpperMapBranch::Degenerate, upper_map_branch(to(0.0)));
    assert_eq!(UpperMapBranch::Degenerate, upper_map_branch(to(-0.0)));
    assert_eq!(UpperMapBranch::Degenerate, upper_map_branch(to(-LARGEST_DENORMAL)));
    assert_eq!(UpperMapBranch::General, upper_map_branch(to(-f64::MIN_POSITIVE)));
    assert_eq!(UpperMapBranch::General, upper_map_branch(to(2.0)));
    assert_eq!(UpperMapBranch::General, upper_map_branch(to(f64::NAN)));
}

#[test]
fn the_inverse_of_the_lower_map_is_zero_below_the_horizon() {
    assert_eq!(0u64, inverse_f_lower_map(to(0.0), to(0.7)).to_bits());
    assert_eq!(0u64, inverse_f_lower_map(to(-1e-320), to(f64::NAN)).to_bits());
    assert_eq!(0u64, inverse_f_lower_map(to(LARGEST_DENORMAL), to(0.7)).to_bits());
    assert_eq!(0.7f64.to_bits(), inverse_f_lower_map(to(f64::MIN_POSITIVE), to(0.7)).to_bits());
    assert_eq!(0.7f64.to_bits(), inverse_f_lower_map(to(0.01), to(0.7)).to_bits());
    assert_eq!(0.7f64.to_bits(), inverse_f_lower_map(to(f64::NAN), to(0.7)).to_bits());
}
