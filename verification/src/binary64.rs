//! IEEE 754 binary64 data as bit patterns, with the order and the few exact
//! operations that the solver's decisions need.
//!
//! The library never does rounded arithmetic. It reads a datum's sign, exponent
//! and fraction fields, and states every contract over the extended real that
//! the datum denotes: an integer count of the smallest subnormal, 2^-1074.
use vstd::prelude::*;
use vstd::arithmetic::power2::{pow2, lemma_pow2_pos, lemma_pow2_unfold, lemma_pow2_strictly_increases};
use vstd::arithmetic::div_mod::{lemma_fundamental_div_mod, lemma_mod_bound, lemma_mod_multiples_basic};

verus! {

/// Two to the power 63: the weight of the sign bit.
pub const SIGN_WEIGHT: u64 = 0x8000_0000_0000_0000;

/// Two to the power 52: the weight of the lowest exponent bit, and the hidden
/// leading bit of a normal significand.
pub const HIDDEN_BIT: u64 = 0x10_0000_0000_0000;

/// The pattern of positive infinity; every larger sign-cleared pattern is a NaN.
pub const INFINITY_BITS: u64 = 0x7ff0_0000_0000_0000;

/// What a binary64 datum denotes.
pub enum Value {
    /// Not a number: unordered against everything, itself included.
    NaN,
    /// A signed magnitude counted in units of 2^-1074. Infinity counts as
    /// the magnitude that its fields encode like any other, `2^52 * 2^2046`,
    /// which is above every finite one.
    Number { negative: bool, magnitude: nat },
}

/// A binary64 datum, held as its 64 bits.
#[derive(Clone, Copy, Debug)]
pub struct Binary64 {
    pub bits: u64,
}

/// True when the sign bit is set.
pub open spec fn sign_of(bits: u64) -> bool {
    bits >= SIGN_WEIGHT
}

/// The pattern with its sign bit cleared.
pub open spec fn cleared(bits: u64) -> u64 {
    if bits >= SIGN_WEIGHT {
        (bits - SIGN_WEIGHT) as u64
    } else {
        bits
    }
}

/// The biased exponent field, 0 to 2047.
pub open spec fn exponent_of(bits: u64) -> nat {
    (cleared(bits) / HIDDEN_BIT) as nat
}

/// The 52-bit fraction field.
pub open spec fn fraction_of(bits: u64) -> nat {
    (bits % HIDDEN_BIT) as nat
}

/// The magnitude in units of 2^-1074 that an exponent field and a fraction
/// field encode: the fraction alone for a subnormal, and the significand with
/// its hidden bit, scaled by the exponent, otherwise.
pub open spec fn scaled(exponent: nat, fraction: nat) -> nat {
    if exponent == 0 {
        fraction
    } else {
        ((HIDDEN_BIT + fraction) * pow2((exponent - 1) as nat)) as nat
    }
}

/// The magnitude that a pattern encodes, whatever its sign.
pub open spec fn magnitude_of(bits: u64) -> nat {
    scaled(exponent_of(bits), fraction_of(bits))
}

/// The value that a pattern denotes.
pub open spec fn value_of(bits: u64) -> Value {
    if cleared(bits) > INFINITY_BITS {
        Value::NaN
    } else {
        Value::Number { negative: sign_of(bits), magnitude: magnitude_of(bits) }
    }
}

impl Value {
    /// The position of a number on the extended real line, in units of
    /// 2^-1074. Both zeros sit at 0.
    pub open spec fn ordinal(self) -> int {
        match self {
            Value::NaN => 0,
            Value::Number { negative, magnitude } => if negative {
                -(magnitude as int)
            } else {
                magnitude as int
            },
        }
    }

    /// `self < other`; false when either is a NaN.
    pub open spec fn lt(self, other: Value) -> bool {
        self is Number && other is Number && self.ordinal() < other.ordinal()
    }

    /// `self <= other`; false when either is a NaN.
    pub open spec fn le(self, other: Value) -> bool {
        self is Number && other is Number && self.ordinal() <= other.ordinal()
    }

    /// `self > other`; false when either is a NaN.
    pub open spec fn gt(self, other: Value) -> bool {
        other.lt(self)
    }

    /// `self >= other`; false when either is a NaN.
    pub open spec fn ge(self, other: Value) -> bool {
        other.le(self)
    }

    /// Numeric equality: the two zeros are equal, a NaN equals nothing.
    pub open spec fn same(self, other: Value) -> bool {
        self is Number && other is Number && self.ordinal() == other.ordinal()
    }

    /// The value with its sign made positive.
    pub open spec fn abs(self) -> Value {
        match self {
            Value::NaN => Value::NaN,
            Value::Number { negative, magnitude } => Value::Number { negative: false, magnitude },
        }
    }

    /// The value rounded toward zero to a whole number: the magnitude cut
    /// down to a multiple of 2^1074 units, the sign kept, on a zero too.
    /// Infinity is whole.
    pub open spec fn truncated(self) -> Value {
        match self {
            Value::NaN => Value::NaN,
            Value::Number { negative, magnitude } => Value::Number {
                negative,
                magnitude: ((magnitude / pow2(1074)) * pow2(1074)) as nat,
            },
        }
    }

    /// The value with its sign flipped.
    pub open spec fn negated(self) -> Value {
        match self {
            Value::NaN => Value::NaN,
            Value::Number { negative, magnitude } => Value::Number { negative: !negative, magnitude },
        }
    }
}

impl View for Binary64 {
    type V = Value;

    open spec fn view(&self) -> Value {
        value_of(self.bits)
    }
}

/// A larger pair of fields, exponent first, encodes a larger magnitude.
pub proof fn lemma_scaled_increases(ea: nat, fa: nat, eb: nat, fb: nat)
    requires
        fa < HIDDEN_BIT,
        fb < HIDDEN_BIT,
        ea < eb || (ea == eb && fa < fb),
    ensures
        scaled(ea, fa) < scaled(eb, fb),
{
    let h = HIDDEN_BIT as int;
    if ea == eb {
        if ea > 0 {
            let p = pow2((ea - 1) as nat) as int;
            lemma_pow2_pos((ea - 1) as nat);
            assert((h + fa) * p < (h + fb) * p) by (nonlinear_arith)
                requires
                    fa < fb,
                    p > 0,
            ;
        }
    } else {
        let q = pow2((eb - 1) as nat) as int;
        lemma_pow2_pos((eb - 1) as nat);
        assert(h * q <= (h + fb) * q) by (nonlinear_arith)
            requires
                fb >= 0,
                q > 0,
        ;
        if ea == 0 {
            assert(h * 1 <= h * q) by (nonlinear_arith)
                requires
                    h > 0,
                    q >= 1,
            ;
        } else {
            let p = pow2((ea - 1) as nat) as int;
            lemma_pow2_pos((ea - 1) as nat);
            lemma_pow2_unfold(ea);
            if ea < eb - 1 {
                lemma_pow2_strictly_increases(ea, (eb - 1) as nat);
            }
            assert(2 * p <= q);
            assert((h + fa) * p < h * (2 * p)) by (nonlinear_arith)
                requires
                    fa < h,
                    p > 0,
            ;
            assert(h * (2 * p) <= h * q) by (nonlinear_arith)
                requires
                    h > 0,
                    2 * p <= q,
            ;
        }
    }
}

/// Among sign-cleared patterns, the order of the patterns is the order of the
/// magnitudes they encode.
pub proof fn lemma_magnitude_order(a: u64, b: u64)
    ensures
        cleared(a) < cleared(b) <==> magnitude_of(a) < magnitude_of(b),
        cleared(a) == cleared(b) <==> magnitude_of(a) == magnitude_of(b),
{
    let ca = cleared(a);
    let cb = cleared(b);
    assert(fraction_of(a) == ca % HIDDEN_BIT);
    assert(fraction_of(b) == cb % HIDDEN_BIT);
    if ca < cb {
        lemma_scaled_increases(exponent_of(a), fraction_of(a), exponent_of(b), fraction_of(b));
    } else if cb < ca {
        lemma_scaled_increases(exponent_of(b), fraction_of(b), exponent_of(a), fraction_of(a));
    }
}

/// What rounding toward zero does to a magnitude: the result is a whole
/// number, it is not above the magnitude, and it is less than one below it.
/// One is 2^1074 units.
pub proof fn lemma_truncated_is_the_whole_part(v: Value)
    requires
        v is Number,
    ensures
        v.truncated() is Number,
        v.truncated()->negative == v->negative,
        v.truncated()->magnitude % pow2(1074) == 0,
        v.truncated()->magnitude <= v->magnitude < v.truncated()->magnitude + pow2(1074),
{
    let m = v->magnitude as int;
    let one = pow2(1074) as int;
    lemma_pow2_pos(1074);
    lemma_fundamental_div_mod(m, one);
    lemma_mod_bound(m, one);
    lemma_mod_multiples_basic(m / one, one);
    assert(one * (m / one) == (m / one) * one) by (nonlinear_arith);
    assert((m / one) * one >= 0);
}

impl Binary64 {
    /// The datum with the given bits.
    pub fn from_bits(bits: u64) -> (x: Binary64)
        ensures
            x.bits == bits,
    {
        Binary64 { bits }
    }

    /// The datum's bits.
    pub fn to_bits(self) -> (bits: u64)
        ensures
            bits == self.bits,
    {
        self.bits
    }

    /// The bits with the sign cleared.
    fn magnitude_bits(self) -> (m: u64)
        ensures
            m == cleared(self.bits),
            m < SIGN_WEIGHT,
    {
        if self.bits >= SIGN_WEIGHT {
            self.bits - SIGN_WEIGHT
        } else {
            self.bits
        }
    }

    /// Whether the datum is a NaN.
    pub fn is_nan(self) -> (r: bool)
        ensures
            r == (self@ is NaN),
    {
        self.magnitude_bits() > INFINITY_BITS
    }

    /// Whether the sign bit is set; it may be on a zero or a NaN too.
    pub fn is_sign_negative(self) -> (r: bool)
        ensures
            r == sign_of(self.bits),
    {
        self.bits >= SIGN_WEIGHT
    }

    /// The datum with its sign bit flipped.
    pub open spec fn neg_of(self) -> Binary64 {
        if self.bits >= SIGN_WEIGHT {
            Binary64 { bits: (self.bits - SIGN_WEIGHT) as u64 }
        } else {
            Binary64 { bits: (self.bits + SIGN_WEIGHT) as u64 }
        }
    }

    /// The datum with its sign bit flipped, as unary minus does it.
    pub fn neg(self) -> (r: Binary64)
        ensures
            r == self.neg_of(),
            r@ == self@.negated(),
    {
        if self.bits >= SIGN_WEIGHT {
            Binary64 { bits: self.bits - SIGN_WEIGHT }
        } else {
            Binary64 { bits: self.bits + SIGN_WEIGHT }
        }
    }

    /// `self < other` in the IEEE order.
    pub fn lt(self, other: Binary64) -> (r: bool)
        ensures
            r == self@.lt(other@),
    {
        if self.is_nan() || other.is_nan() {
            return false;
        }
        let a: u64 = self.magnitude_bits();
        let b: u64 = other.magnitude_bits();
        proof {
            lemma_magnitude_order(self.bits, other.bits);
            lemma_magnitude_order(self.bits, 0);
            lemma_magnitude_order(other.bits, 0);
        }
        if self.is_sign_negative() {
            if other.is_sign_negative() {
                b < a
            } else {
                a != 0 || b != 0
            }
        } else {
            !other.is_sign_negative() && a < b
        }
    }

    /// `self <= other` in the IEEE order.
    pub fn le(self, other: Binary64) -> (r: bool)
        ensures
            r == self@.le(other@),
    {
        if self.is_nan() || other.is_nan() {
            return false;
        }
        let a: u64 = self.magnitude_bits();
        let b: u64 = other.magnitude_bits();
        proof {
            lemma_magnitude_order(self.bits, other.bits);
            lemma_magnitude_order(self.bits, 0);
            lemma_magnitude_order(other.bits, 0);
        }
        if self.is_sign_negative() {
            !other.is_sign_negative() || b <= a
        } else if other.is_sign_negative() {
            a == 0 && b == 0
        } else {
            a <= b
        }
    }

    /// `self > other` in the IEEE order.
    pub fn gt(self, other: Binary64) -> (r: bool)
        ensures
            r == self@.gt(other@),
    {
        other.lt(self)
    }

    /// `self >= other` in the IEEE order.
    pub fn ge(self, other: Binary64) -> (r: bool)
        ensures
            r == self@.ge(other@),
    {
        other.le(self)
    }

    /// Numeric equality in the IEEE sense: `-0 == +0`, and a NaN equals nothing.
    pub fn same(self, other: Binary64) -> (r: bool)
        ensures
            r == self@.same(other@),
    {
        if self.is_nan() || other.is_nan() {
            return false;
        }
        let a: u64 = self.magnitude_bits();
        let b: u64 = other.magnitude_bits();
        proof {
            lemma_magnitude_order(self.bits, other.bits);
            lemma_magnitude_order(self.bits, 0);
            lemma_magnitude_order(other.bits, 0);
        }
        if self.is_sign_negative() == other.is_sign_negative() {
            a == b
        } else {
            a == 0 && b == 0
        }
    }
}

} // verus!
