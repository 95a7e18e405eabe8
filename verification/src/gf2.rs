//! The field of two elements, the smallest algebra that obeys every law that
//! the theorems on chaining ask for.

use crate::laws::{
    addition_is_associative, addition_is_commutative, annihilates,
    division_inverts_multiplication, is_additive_identity, is_associative_division_algebra,
    is_one, is_zero, multiplication_distributes, multiplication_is_associative,
};
use crate::traits::Algebra;
use vstd::prelude::*;

verus! {

/// An element of the field of two elements: `Gf2(false)` is its zero and
/// `Gf2(true)` its one.
#[derive(Clone, Copy, Debug, PartialEq, Eq, Structural)]
pub struct Gf2(pub bool);

impl Algebra for Gf2 {
    /// The sum is one where exactly one operand is.
    open spec fn add_spec(self, rhs: Self) -> Self {
        Gf2(self.0 != rhs.0)
    }

    /// The product is one where both operands are.
    open spec fn mul_spec(self, rhs: Self) -> Self {
        Gf2(self.0 && rhs.0)
    }

    /// The quotient by one is the dividend; the quotient by zero is zero.
    open spec fn div_spec(self, rhs: Self) -> Self {
        Gf2(self.0 && rhs.0)
    }

    fn add(self, rhs: Self) -> (sum: Self) {
        Gf2(self.0 != rhs.0)
    }

    fn mul(self, rhs: Self) -> (product: Self) {
        Gf2(self.0 && rhs.0)
    }

    fn div(self, rhs: Self) -> (quotient: Self) {
        Gf2(self.0 && rhs.0)
    }
}

/// The field of two elements is an associative division algebra, with
/// `Gf2(false)` as its zero and `Gf2(true)` as its one.
pub proof fn lemma_gf2_is_a_field()
    ensures
        is_associative_division_algebra(Gf2(false)),
        is_zero(Gf2(false)),
        is_one(Gf2(true)),
{
    reveal(addition_is_commutative);
    reveal(addition_is_associative);
    reveal(multiplication_distributes);
    reveal(multiplication_is_associative);
    reveal(is_additive_identity);
    reveal(annihilates);
    reveal(is_one);
    reveal(division_inverts_multiplication);
}

} // verus!
