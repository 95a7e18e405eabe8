//! Moebius (fractional-linear) transforms over an arbitrary algebra.
//!
//! A transform holds four coefficients `(a, b, c, d)` of one algebra and maps a
//! point `x` to `(a*x + b) / (c*x + d)`. Two transforms compose into one by the
//! product of their coefficient matrices; over an associative division algebra
//! the composed transform acts as the two transforms applied in turn.

pub mod gf2;
pub mod laws;
pub mod traits;
pub mod transform;
