//! Binary64 values held by their bit patterns, with their numeric meaning.

use vstd::arithmetic::power2::{lemma_pow2_pos, lemma_pow2_strictly_increases, lemma_pow2_unfold, pow2};
use vstd::prelude::*;

verus! {

/// The sign bit of a binary64 pattern.
pub const SIGN_BIT: u64 = 0x8000_0000_0000_0000;

/// The pattern of positive infinity: every exponent bit set, no fraction bit set.
pub const INFINITY_BITS: u64 = 0x7FF0_0000_0000_0000;

/// The weight of the lowest exponent bit, which is also the significand's hidden leading bit.
pub const HIDDEN_BIT: u64 = 0x0010_0000_0000_0000;

/// What a binary64 bit pattern stands for.
///
/// A finite value is counted in units of 2^-1074, the spacing of the subnormal numbers, so that
/// every finite value is an integer. The two zeros are both `Finite(0)`, and the payload and
/// sign of a NaN are not part of the meaning.
pub enum Value {
    NotANumber,
    NegativeInfinity,
    PositiveInfinity,
    Finite(int),
}

impl Value {
    /// The absolute value.
    pub open spec fn abs(self) -> Value {
        match self {
            Value::NotANumber => Value::NotANumber,
            Value::NegativeInfinity => Value::PositiveInfinity,
            Value::PositiveInfinity => Value::PositiveInfinity,
            Value::Finite(units) => Value::Finite(if units < 0 { -units } else { units }),
        }
    }

    /// The strict numeric order. Nothing is below or above a NaN.
    pub open spec fn lt(self, other: Value) -> bool {
        match (self, other) {
            (Value::NotANumber, _) => false,
            (_, Value::NotANumber) => false,
            (_, Value::NegativeInfinity) => false,
            (Value::NegativeInfinity, _) => true,
            (Value::PositiveInfinity, _) => false,
            (Value::Finite(_), Value::PositiveInfinity) => true,
            (Value::Finite(a), Value::Finite(b)) => a < b,
        }
    }

    /// Whether the value is numerically zero.
    pub open spec fn is_zero(self) -> bool {
        self == Value::Finite(0)
    }
}

/// The pattern without its sign bit.
pub open spec fn magnitude_bits(bits: u64) -> nat {
    (bits % SIGN_BIT) as nat
}

/// Whether the sign bit is set.
pub open spec fn sign_is_set(bits: u64) -> bool {
    bits >= SIGN_BIT
}

/// The biased exponent field, from 0 to 2047.
pub open spec fn exponent(bits: u64) -> nat {
    magnitude_bits(bits) / (HIDDEN_BIT as nat)
}

/// The fraction field, the low 52 bits.
pub open spec fn fraction(bits: u64) -> nat {
    magnitude_bits(bits) % (HIDDEN_BIT as nat)
}

/// The size of a finite pattern's value, in units of 2^-1074.
///
/// A subnormal pattern (exponent field 0) counts its fraction. A normal pattern with exponent
/// field `e` has the significand `2^52 + fraction` and the value `significand * 2^(e - 1075)`,
/// which is `significand * 2^(e - 1)` units.
pub open spec fn units(bits: u64) -> nat {
    if exponent(bits) == 0 {
        fraction(bits)
    } else {
        (HIDDEN_BIT as nat + fraction(bits)) * pow2((exponent(bits) - 1) as nat)
    }
}

/// The meaning of a bit pattern.
pub open spec fn value_of(bits: u64) -> Value {
    if magnitude_bits(bits) > INFINITY_BITS {
        Value::NotANumber
    } else if magnitude_bits(bits) == INFINITY_BITS {
        if sign_is_set(bits) {
            Value::NegativeInfinity
        } else {
            Value::PositiveInfinity
        }
    } else if sign_is_set(bits) {
        Value::Finite(-(units(bits) as int))
    } else {
        Value::Finite(units(bits) as int)
    }
}

/// A binary64 value, held by its bit pattern.
#[derive(Clone, Copy, Debug)]
pub struct Scalar {
    pub bits: u64,
}

impl View for Scalar {
    type V = Value;

    open spec fn view(&self) -> Value {
        value_of(self.bits)
    }
}

/// A finite pattern with a set exponent bit stands for at least 2^52 units.
pub proof fn lemma_units_of_normal(bits: u64)
    requires
        exponent(bits) >= 1,
    ensures
        units(bits) >= HIDDEN_BIT,
{
    let scale: nat = pow2((exponent(bits) - 1) as nat);
    let significand: nat = HIDDEN_BIT as nat + fraction(bits);
    lemma_pow2_pos((exponent(bits) - 1) as nat);
    assert(significand * scale >= HIDDEN_BIT) by (nonlinear_arith)
        requires
            significand >= HIDDEN_BIT,
            scale >= 1,
    ;
}

/// Only the two zero patterns stand for zero units.
pub proof fn lemma_units_zero(bits: u64)
    ensures
        units(bits) == 0 <==> magnitude_bits(bits) == 0,
{
    if exponent(bits) >= 1 {
        lemma_units_of_normal(bits);
    }
}

/// Without their sign bits, the larger of two finite patterns stands for more units.
pub proof fn lemma_units_increase(low: u64, high: u64)
    requires
        magnitude_bits(low) < magnitude_bits(high) < INFINITY_BITS,
    ensures
        units(low) < units(high),
{
    let low_exponent: nat = exponent(low);
    let high_exponent: nat = exponent(high);
    let low_fraction: nat = fraction(low);
    let high_fraction: nat = fraction(high);
    assert(low_exponent <= high_exponent);
    if low_exponent == high_exponent {
        assert(low_fraction < high_fraction);
        if low_exponent >= 1 {
            let scale: nat = pow2((low_exponent - 1) as nat);
            lemma_pow2_pos((low_exponent - 1) as nat);
            assert((HIDDEN_BIT + low_fraction) * scale < (HIDDEN_BIT + high_fraction) * scale)
                by (nonlinear_arith)
                requires
                    low_fraction < high_fraction,
                    scale >= 1,
            ;
        }
    } else {
        lemma_units_of_normal(high);
        if low_exponent >= 1 {
            let low_scale: nat = pow2((low_exponent - 1) as nat);
            let high_scale: nat = pow2((high_exponent - 1) as nat);
            lemma_pow2_pos((low_exponent - 1) as nat);
            lemma_pow2_unfold(low_exponent);
            if low_exponent < high_exponent - 1 {
                lemma_pow2_strictly_increases(low_exponent, (high_exponent - 1) as nat);
            }
            assert(2 * low_scale <= high_scale);
            assert((HIDDEN_BIT + low_fraction) * low_scale < (HIDDEN_BIT + high_fraction)
                * high_scale) by (nonlinear_arith)
                requires
                    low_fraction < HIDDEN_BIT,
                    2 * low_scale <= high_scale,
                    low_scale >= 1,
            ;
        }
    }
}

impl Scalar {
    /// The scalar with the given bit pattern.
    pub fn from_bits(bits: u64) -> (s: Scalar)
        ensures
            s.bits == bits,
    {
        Scalar { bits }
    }

    /// Whether the scalar equals zero. Both zeros do, and a NaN does not.
    pub fn is_zero(&self) -> (r: bool)
        ensures
            r == self@.is_zero(),
    {
        proof {
            lemma_units_zero(self.bits);
        }
        self.bits % SIGN_BIT == 0
    }

    /// The absolute value: the same pattern with the sign bit cleared.
    pub fn abs(&self) -> (r: Scalar)
        ensures
            r.bits == self.bits % SIGN_BIT,
            r@ == self@.abs(),
    {
        Scalar { bits: self.bits % SIGN_BIT }
    }

    /// Whether the scalar is less than `other`. False whenever either is a NaN.
    pub fn lt(&self, other: &Scalar) -> (r: bool)
        ensures
            r == self@.lt(other@),
    {
        let a: u64 = self.bits % SIGN_BIT;
        let b: u64 = other.bits % SIGN_BIT;
        if a > INFINITY_BITS || b > INFINITY_BITS {
            return false;
        }
        proof {
            lemma_units_zero(self.bits);
            lemma_units_zero(other.bits);
            if a < b && b < INFINITY_BITS {
                lemma_units_increase(self.bits, other.bits);
            }
            if b < a && a < INFINITY_BITS {
                lemma_units_increase(other.bits, self.bits);
            }
        }
        if self.bits >= SIGN_BIT {
            if other.bits >= SIGN_BIT {
                b < a
            } else {
                a != 0 || b != 0
            }
        } else {
            if other.bits >= SIGN_BIT {
                false
            } else {
                a < b
            }
        }
    }
}

} // verus!
