//! Relational predicates and display text of three-dimensional Euclidean vectors.
//!
//! A vector's components, and every quantity derived from them, are IEEE-754 binary64 values.
//! This crate holds such a quantity by its bit pattern, as a [`scalar::Scalar`], and gives the
//! pattern its numeric meaning as a [`scalar::Value`]. The tolerance comparisons behind the
//! predicates are carried out on the patterns and are proved to agree with the numeric order.
//! The arithmetic that produces the quantities is the caller's.

pub mod display;
pub mod predicates;
pub mod scalar;
