//! The arithmetic that a transform asks of the algebra it works over.

use vstd::prelude::*;

verus! {

/// A value type closed under addition, multiplication and division.
///
/// Each operation is a total function of its two operands: the executable
/// method returns exactly what the matching specification function names.
/// Nothing else is asked of an algebra here. In particular multiplication need
/// be neither commutative nor associative, and what division by an element
/// without an inverse yields is for the algebra to say.
pub trait Algebra: Copy {
    /// The sum `self + rhs`.
    spec fn add_spec(self, rhs: Self) -> Self;

    /// The product `self * rhs`, with `self` on the left.
    spec fn mul_spec(self, rhs: Self) -> Self;

    /// The quotient `self / rhs`.
    spec fn div_spec(self, rhs: Self) -> Self;

    /// Computes `self + rhs`.
    fn add(self, rhs: Self) -> (sum: Self)
        ensures
            sum == self.add_spec(rhs),
    ;

    /// Computes `self * rhs`.
    fn mul(self, rhs: Self) -> (product: Self)
        ensures
            product == self.mul_spec(rhs),
    ;

    /// Computes `self / rhs`.
    fn div(self, rhs: Self) -> (quotient: Self)
        ensures
            quotient == self.div_spec(rhs),
    ;
}

} // verus!
