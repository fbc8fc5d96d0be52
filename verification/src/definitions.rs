//! Named constants and the scalar helpers that the evaluator and the solver share.
use vstd::prelude::*;
use vstd::arithmetic::power2::{pow2, lemma_pow2_pos, lemma_pow2_adds, lemma2_to64_rest};
use vstd::arithmetic::div_mod::{
    lemma_fundamental_div_mod, lemma_mod_multiples_vanish, lemma_div_multiples_vanish_quotient,
    lemma_div_by_multiple, lemma_basic_div, lemma_mod_decreases,
};
use vstd::bits::lemma_u64_shl_is_mul;
use crate::binary64::{
    Binary64, value_of, sign_of, cleared, exponent_of, fraction_of, scaled, lemma_magnitude_order,
    lemma_scaled_increases, lemma_truncated_is_the_whole_part, HIDDEN_BIT, SIGN_WEIGHT, INFINITY_BITS,
};

verus! {

/// Bits of the smallest positive normal number, 2^-1022.
pub const DBL_MIN: u64 = 0x0010_0000_0000_0000;

/// Bits of the largest finite number.
pub const DBL_MAX: u64 = 0x7FEF_FFFF_FFFF_FFFF;

/// Bits of the difference between 1 and the next larger number, 2^-52.
pub const DBL_EPSILON: u64 = 0x3CB0_0000_0000_0000;

/// Bits of the square root of `DBL_EPSILON`, 2^-26.
pub const SQRT_DBL_EPSILON: u64 = 0x3E50_0000_0000_0000;

/// Bits of the fourth root of `DBL_EPSILON`, 2^-13.
pub const FOURTH_ROOT_DBL_EPSILON: u64 = 0x3F20_0000_0000_0000;

/// Bits of the eighth root of `DBL_EPSILON`, correctly rounded.
pub const EIGHTH_ROOT_DBL_EPSILON: u64 = 0x3F86_A09E_667F_3BCD;

/// Bits of the sixteenth root of `DBL_EPSILON`, the rounded square root of
/// the rounded eighth root.
pub const SIXTEENTH_ROOT_DBL_EPSILON: u64 = 0x3FBA_E89F_995A_D3AE;

/// Bits of the square root of `DBL_MIN`, 2^-511.
pub const SQRT_DBL_MIN: u64 = 0x2000_0000_0000_0000;

/// Bits of the square root of `DBL_MAX`, correctly rounded.
pub const SQRT_DBL_MAX: u64 = 0x5FEF_FFFF_FFFF_FFFF;

/// Bits of -10, the ratio `x / s` below which the asymptotic expansion of
/// the normalised Black call is accurate to full precision.
pub const ASYMPTOTIC_EXPANSION_ACCURACY_THRESHOLD: u64 = 0xC024_0000_0000_0000;

/// Bits of twice the sixteenth root of `DBL_EPSILON`: the half volatility
/// below which the expansion of the normalised Black call in small `t` is
/// used.
pub const SMALL_T_EXPANSION_OF_NORMALISED_BLACK_THRESHOLD: u64 = 0x3FCA_E89F_995A_D3AE;

/// Bits of positive zero.
pub const ZERO: u64 = 0;

/// Bits of 1.
pub const ONE: u64 = 0x3FF0_0000_0000_0000;

/// Bits of -1.
pub const MINUS_ONE: u64 = 0xBFF0_0000_0000_0000;

/// Bits of the size below which a quantity counts as denormal and is not
/// worked on: the smallest normal number. Full machine accuracy cannot be
/// had from what lies below it.
pub const DENORMALISATION_CUTOFF: u64 = 0x0010_0000_0000_0000;

/// The volatility returned for a price below the intrinsic value: the most
/// negative finite number.
pub const VOLATILITY_VALUE_TO_SIGNAL_PRICE_IS_BELOW_INTRINSIC: u64 = 0xFFEF_FFFF_FFFF_FFFF;

/// The volatility returned for a price at or above the largest possible
/// price: the largest finite number.
pub const VOLATILITY_VALUE_TO_SIGNAL_PRICE_IS_ABOVE_MAXIMUM: u64 = 0x7FEF_FFFF_FFFF_FFFF;

/// `|x| < DBL_MIN`: `x` is a zero or a subnormal. False of a NaN.
pub open spec fn is_zero_of(x: Binary64) -> bool {
    x@.abs().lt(value_of(DBL_MIN))
}

/// `x` when `x >= y`, and `y` otherwise: `y` whenever either is a NaN.
pub open spec fn max_of(x: Binary64, y: Binary64) -> Binary64 {
    if x@.ge(y@) {
        x
    } else {
        y
    }
}

/// `x` with its sign bit cleared.
pub open spec fn fabs_of(x: Binary64) -> Binary64 {
    Binary64 { bits: cleared(x.bits) }
}

/// Whether `x` is nearer to zero than every normal number: a zero or a
/// subnormal, which is to say that its exponent field is zero. A NaN is not.
pub fn is_zero(x: Binary64) -> (r: bool)
    ensures
        r == is_zero_of(x),
        r == (cleared(x.bits) < HIDDEN_BIT),
{
    proof {
        lemma_magnitude_order(x.bits, DBL_MIN);
    }
    fabs(x).lt(Binary64 { bits: DBL_MIN })
}

/// The larger of `x` and `y`: `x` when `x >= y`, and `y` otherwise, so `y`
/// whenever either is a NaN.
pub fn max(x: Binary64, y: Binary64) -> (r: Binary64)
    ensures
        r == max_of(x, y),
{
    if x.ge(y) {
        x
    } else {
        y
    }
}

/// The absolute value: `x` with its sign bit cleared.
pub fn fabs(x: Binary64) -> (r: Binary64)
    ensures
        r == fabs_of(x),
        r@ == x@.abs(),
{
    if x.bits >= SIGN_WEIGHT {
        Binary64 { bits: x.bits - SIGN_WEIGHT }
    } else {
        x
    }
}

/// `x` when `c` holds, and `y` otherwise.
pub fn sel(c: bool, x: Binary64, y: Binary64) -> (r: Binary64)
    ensures
        r == if c { x } else { y },
{
    if c {
        x
    } else {
        y
    }
}

/// A price floored at zero: `|max(b, 0)|`.
pub open spec fn floored_of(b: Binary64) -> Binary64 {
    fabs_of(max_of(b, Binary64 { bits: ZERO }))
}

/// Floors a price at zero, as every evaluation of a price ends: a number
/// above zero comes back as it is, and everything else, a NaN too, as
/// positive zero. So no price is negative, and none is a NaN.
pub fn floor_at_zero(b: Binary64) -> (r: Binary64)
    ensures
        r == floored_of(b),
        r == if b@.gt(value_of(ZERO)) { b } else { Binary64 { bits: ZERO } },
        r@ is Number,
        r@.ge(value_of(ZERO)),
        !sign_of(r.bits),
{
    proof {
        lemma_magnitude_order(b.bits, ZERO);
    }
    fabs(max(b, Binary64 { bits: ZERO }))
}

/// A magnitude below one has no whole part.
proof fn lemma_truncate_small(e: nat, f: nat)
    requires
        e < 1023,
        f < HIDDEN_BIT,
    ensures
        scaled(e, f) / pow2(1074) == 0,
{
    lemma_scaled_increases(e, f, 1023, 0);
    lemma2_to64_rest();
    lemma_pow2_adds(52, 1022);
    lemma_basic_div(scaled(e, f) as int, pow2(1074) as int);
}

/// A magnitude whose lowest significand bit weighs one or more is whole.
proof fn lemma_truncate_large(e: nat, f: nat)
    requires
        e >= 1075,
    ensures
        (scaled(e, f) / pow2(1074)) * pow2(1074) == scaled(e, f),
{
    let m = (HIDDEN_BIT + f) as int;
    let q = pow2((e - 1075) as nat) as int;
    let w = pow2(1074) as int;
    lemma_pow2_pos(1074);
    lemma_pow2_adds((e - 1075) as nat, 1074);
    assert(pow2((e - 1) as nat) == q * w);
    assert(m * (q * w) == (m * q) * w) by (nonlinear_arith);
    assert(m * q >= 0) by (nonlinear_arith)
        requires
            m >= 0,
            q >= 0,
    ;
    lemma_div_by_multiple(m * q, w);
}

/// Where the exponent puts the lowest `k` significand bits below one,
/// clearing them leaves the whole part.
proof fn lemma_truncate_middle(e: nat, f: nat, k: nat)
    requires
        1 <= e,
        f < HIDDEN_BIT,
        1 <= k <= 52,
        e - 1 + k == 1074,
    ensures
        f % pow2(k) <= f,
        scaled(e, (f - f % pow2(k)) as nat) == (scaled(e, f) / pow2(1074)) * pow2(1074),
{
    let u = pow2(k) as int;
    let p = pow2((e - 1) as nat) as int;
    let c = pow2((52 - k) as nat) as int;
    let m = (HIDDEN_BIT + f) as int;
    lemma_pow2_pos(k);
    lemma_pow2_pos((e - 1) as nat);
    lemma2_to64_rest();
    lemma_pow2_adds(k, (52 - k) as nat);
    lemma_pow2_adds(k, (e - 1) as nat);
    assert(HIDDEN_BIT == u * c);
    assert(pow2(1074) == u * p);
    lemma_mod_multiples_vanish(c, f as int, u);
    assert(m == u * c + f);
    assert(m % u == (f as int) % u);
    lemma_mod_decreases(f, pow2(k));
    lemma_fundamental_div_mod(m, u);
    let kept = m / u;
    let low = (f as int) % u;
    assert(m - low == u * kept);
    lemma_div_multiples_vanish_quotient(p, m, u);
    assert(m * p == p * m) by (nonlinear_arith);
    assert(u * p == p * u) by (nonlinear_arith);
    assert((m * p) / (u * p) == kept);
    assert(scaled(e, f) == m * p);
    assert(scaled(e, f) / pow2(1074) == kept);
    assert((u * kept) * p == kept * (u * p)) by (nonlinear_arith);
    assert(scaled(e, (f - low) as nat) == (HIDDEN_BIT + (f - low)) * p);
    assert(HIDDEN_BIT + (f - low) == u * kept);
}

/// `x` rounded toward zero to a whole number: the whole number of the same
/// sign that is nearest to `x` among those no larger in size. One is 2^1074
/// units of magnitude. A NaN comes back as it is.
pub fn d_int(x: Binary64) -> (r: Binary64)
    ensures
        r@ == x@.truncated(),
        x@ is NaN ==> r == x,
        x@ is Number ==> r@ is Number && r@->negative == x@->negative && r@->magnitude % pow2(1074) == 0
            && r@->magnitude <= x@->magnitude < r@->magnitude + pow2(1074),
{
    proof {
        if x@ is Number {
            lemma_truncated_is_the_whole_part(x@);
        }
    }
    let c: u64 = fabs(x).bits;
    if c > INFINITY_BITS {
        return x;
    }
    let e: u64 = c / HIDDEN_BIT;
    let f: u64 = c % HIDDEN_BIT;
    assert(e == exponent_of(x.bits) && f == fraction_of(x.bits));
    if e < 1023 {
        proof {
            lemma_truncate_small(e as nat, f as nat);
            assert(0nat * pow2(1074) == 0) by (nonlinear_arith);
        }
        Binary64 { bits: x.bits - c }
    } else if e >= 1075 {
        proof {
            lemma_truncate_large(e as nat, f as nat);
        }
        x
    } else {
        let k: u64 = 1075 - e;
        proof {
            lemma2_to64_rest();
            lemma_pow2_pos(k as nat);
            lemma_pow2_adds(k as nat, (52 - k) as nat);
            assert(pow2(k as nat) <= pow2(52)) by (nonlinear_arith)
                requires
                    pow2(52) == pow2(k as nat) * pow2((52 - k) as nat),
                    pow2(k as nat) > 0,
                    pow2((52 - k) as nat) > 0,
            ;
            lemma_u64_shl_is_mul(1, k);
            lemma_truncate_middle(e as nat, f as nat, k as nat);
        }
        let unit: u64 = 1u64 << k;
        let below: u64 = f % unit;
        let r = Binary64 { bits: x.bits - below };
        assert(exponent_of(r.bits) == e && fraction_of(r.bits) == f - below);
        r
    }
}

} // verus!
