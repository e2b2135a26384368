//! The relational predicates: parallel, perpendicular, normalized.
//!
//! Each predicate is decided from a few quantities that the caller derives from the vectors:
//! lengths, a dot product, the product of a vector's components. Every near-zero test compares
//! against one fixed tolerance.

use crate::scalar::{lemma_units_of_normal, units, value_of, Scalar, Value};
use vstd::arithmetic::power2::{lemma2_to64, lemma_pow2_adds, pow2};
use vstd::prelude::*;

verus! {

/// The bit pattern of the tolerance, the binary64 value nearest to one millionth.
pub const EPSILON_BITS: u64 = 0x3EB0_C6F7_A0B5_ED8D;

/// The tolerance as a value.
pub open spec fn tolerance() -> Value {
    value_of(EPSILON_BITS)
}

/// Whether a value is less than the tolerance.
pub open spec fn below_tolerance(v: Value) -> bool {
    v.lt(tolerance())
}

/// Whether the absolute value of a value is less than the tolerance.
pub open spec fn negligible(v: Value) -> bool {
    v.abs().lt(tolerance())
}

/// Two vectors are parallel when neither length is below the tolerance and the length of their
/// cross product is negligible. A vector that is too short is parallel to nothing, itself
/// included.
pub open spec fn parallel(length: Value, other_length: Value, cross_length: Value) -> bool {
    &&& !below_tolerance(length)
    &&& !below_tolerance(other_length)
    &&& negligible(cross_length)
}

/// Two vectors are perpendicular when the product of the three components is zero for neither
/// and their dot product is negligible. It is the product that is tested, not the components:
/// it is zero when a component is zero and the other two are finite, and also when the
/// components are so small that their product vanishes.
pub open spec fn perpendicular(product: Value, other_product: Value, dot: Value) -> bool {
    &&& !product.is_zero()
    &&& !other_product.is_zero()
    &&& negligible(dot)
}

/// A vector is normalized when the deviation of its length from one is negligible.
pub open spec fn normalized(deviation: Value) -> bool {
    negligible(deviation)
}

/// The tolerance.
pub fn epsilon() -> (e: Scalar)
    ensures
        e.bits == EPSILON_BITS,
        e@ == tolerance(),
{
    Scalar::from_bits(EPSILON_BITS)
}

/// Decides whether the absolute value of a quantity is less than the tolerance.
pub fn is_negligible(quantity: Scalar) -> (r: bool)
    ensures
        r == negligible(quantity@),
{
    quantity.abs().lt(&epsilon())
}

/// Decides whether two vectors are parallel, from the length of the first, the length of the
/// second, and the length of their cross product.
pub fn is_parallel_to(length: Scalar, other_length: Scalar, cross_length: Scalar) -> (r: bool)
    ensures
        r == parallel(length@, other_length@, cross_length@),
{
    let e: Scalar = epsilon();
    if length.lt(&e) {
        return false;
    }
    if other_length.lt(&e) {
        return false;
    }
    is_negligible(cross_length)
}

/// Decides whether two vectors are perpendicular, from the product of the first vector's three
/// components, the same product for the second, and the dot product of the two.
pub fn is_perpendicular_to(product: Scalar, other_product: Scalar, dot: Scalar) -> (r: bool)
    ensures
        r == perpendicular(product@, other_product@, dot@),
{
    if product.is_zero() {
        return false;
    }
    if other_product.is_zero() {
        return false;
    }
    is_negligible(dot)
}

/// Decides whether a vector is normalized, from the deviation of its length: one minus the
/// length.
pub fn is_normalized(deviation: Scalar) -> (r: bool)
    ensures
        r == normalized(deviation@),
{
    is_negligible(deviation)
}

/// The tolerance is a positive finite value, and no binary64 value is nearer to one millionth:
/// it differs from 10^-6 by at most half the spacing of the values around it. In units of
/// 2^-1074 one is 2^1074 and that spacing is 2^1002.
pub proof fn lemma_tolerance_value()
    ensures
        tolerance() == Value::Finite(units(EPSILON_BITS) as int),
        units(EPSILON_BITS) > 0,
        -(1_000_000 * pow2(1002)) <= 2 * (units(EPSILON_BITS) * 1_000_000 - pow2(1074))
            <= 1_000_000 * pow2(1002),
{
    let significand: int = 0x10_C6F7_A0B5_ED8D;
    let spacing: int = pow2(1002) as int;
    assert(units(EPSILON_BITS) == significand * spacing);
    lemma_units_of_normal(EPSILON_BITS);
    lemma2_to64();
    lemma_pow2_adds(64, 8);
    lemma_pow2_adds(72, 1002);
    let one: int = 0x1_00_0000_0000_0000_0000;
    assert(pow2(1074) == one * spacing);
    let gap: int = 2 * (significand * 1_000_000 - one);
    assert(gap == -427392);
    assert(2 * (significand * spacing * 1_000_000 - one * spacing) == gap * spacing)
        by (nonlinear_arith)
        requires
            gap == 2 * (significand * 1_000_000 - one),
    ;
    assert(-(1_000_000 * spacing) <= gap * spacing <= 1_000_000 * spacing) by (nonlinear_arith)
        requires
            spacing > 0,
            gap == -427392,
    ;
}

/// A vector whose length is not below the tolerance is parallel to itself as soon as its cross
/// product with itself has length zero. A vector of length zero is not parallel to itself,
/// whatever the cross product.
pub proof fn lemma_parallel_to_itself(length: Value, cross_length: Value)
    ensures
        !below_tolerance(length) && cross_length.is_zero() ==> parallel(
            length,
            length,
            cross_length,
        ),
        length.is_zero() ==> !parallel(length, length, cross_length),
{
    lemma_tolerance_value();
}

/// Neither predicate depends on which of the two vectors comes first, as long as the quantity
/// that belongs to the pair is the same either way.
pub proof fn lemma_operands_may_be_swapped(first: Value, second: Value, shared: Value)
    ensures
        parallel(first, second, shared) == parallel(second, first, shared),
        perpendicular(first, second, shared) == perpendicular(second, first, shared),
{
}

/// A NaN among the deciding quantities never yields a positive answer where it is compared
/// against the tolerance.
pub proof fn lemma_not_a_number_is_never_negligible(a: Value, b: Value)
    ensures
        !negligible(Value::NotANumber),
        !parallel(a, b, Value::NotANumber),
        !perpendicular(a, b, Value::NotANumber),
        !normalized(Value::NotANumber),
{
}

} // verus!
