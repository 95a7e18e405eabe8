//! Transforms of an algebra, and the Moebius transform among them.

use crate::traits::Algebra;
use vstd::prelude::*;

pub mod prelude;

verus! {

/// A map from the points of an algebra to its points.
pub trait Transform<A: Algebra> {
    /// The image of `x` under this transform.
    spec fn apply_spec(&self, x: A) -> A;

    /// Evaluates the transform at `x`.
    ///
    /// The result is a function of the transform and the point alone, so two
    /// calls on equal inputs return equal values.
    fn apply(&self, x: A) -> (image: A)
        ensures
            image == self.apply_spec(x),
    ;
}

/// Transforms of which two combine into a single one.
pub trait Chain<A: Algebra>: Sized {
    /// The transform that stands for `self` and `other` together, `other`
    /// being the one that meets the point first.
    spec fn chain_spec(&self, other: &Self) -> Self;

    /// Combines `self` and `other` into one transform.
    ///
    /// The result is a function of the two transforms alone, so two calls on
    /// equal inputs return equal values.
    fn chain(&self, other: &Self) -> (combined: Self)
        ensures
            combined == self.chain_spec(other),
    ;
}

/// The Moebius transform `x -> (a*x + b) / (c*x + d)`.
///
/// The four coefficients are those of the matrix `[[a, b], [c, d]]`. Any four
/// values make a transform: one whose matrix is singular is as good a value as
/// another, and maps points to whatever the algebra's division then yields.
#[derive(Debug)]
pub struct Moebius<A: Algebra> {
    pub a: A,
    pub b: A,
    pub c: A,
    pub d: A,
}

impl<A: Algebra> Moebius<A> {
    /// The value above the division bar at `x`: `a*x + b`.
    pub open spec fn numerator(&self, x: A) -> A {
        self.a.mul_spec(x).add_spec(self.b)
    }

    /// The value below the division bar at `x`: `c*x + d`.
    pub open spec fn denominator(&self, x: A) -> A {
        self.c.mul_spec(x).add_spec(self.d)
    }

    /// The transform with the coefficients `a`, `b`, `c`, `d`, as they are.
    pub fn new(a: A, b: A, c: A, d: A) -> (m: Self)
        ensures
            m == (Moebius { a, b, c, d }),
    {
        Moebius { a, b, c, d }
    }
}

impl<A: Algebra> Clone for Moebius<A> {
    /// A transform with the same four coefficients.
    fn clone(&self) -> (twin: Self)
        ensures
            twin == *self,
    {
        Moebius { a: self.a, b: self.b, c: self.c, d: self.d }
    }
}

impl<A: Algebra> Chain<A> for Moebius<A> {
    /// The matrix product `self * other`, each entry a row of `self` times a
    /// column of `other`, with the factor from `self` on the left.
    open spec fn chain_spec(&self, other: &Self) -> Self {
        Moebius {
            a: self.a.mul_spec(other.a).add_spec(self.b.mul_spec(other.c)),
            b: self.a.mul_spec(other.b).add_spec(self.b.mul_spec(other.d)),
            c: self.c.mul_spec(other.a).add_spec(self.d.mul_spec(other.c)),
            d: self.c.mul_spec(other.b).add_spec(self.d.mul_spec(other.d)),
        }
    }

    /// Multiplies the two coefficient matrices.
    ///
    /// Over an associative division algebra the product maps a point to where
    /// `self` maps its image under `other`. The product is computed all the
    /// same over an algebra that is not associative, such as the octonions,
    /// and there it does not stand for the two transforms in turn.
    fn chain(&self, other: &Self) -> (combined: Self)
        ensures
            combined.a == self.a.mul_spec(other.a).add_spec(self.b.mul_spec(other.c)),
            combined.b == self.a.mul_spec(other.b).add_spec(self.b.mul_spec(other.d)),
            combined.c == self.c.mul_spec(other.a).add_spec(self.d.mul_spec(other.c)),
            combined.d == self.c.mul_spec(other.b).add_spec(self.d.mul_spec(other.d)),
    {
        Self::new(
            self.a.mul(other.a).add(self.b.mul(other.c)),
            self.a.mul(other.b).add(self.b.mul(other.d)),
            self.c.mul(other.a).add(self.d.mul(other.c)),
            self.c.mul(other.b).add(self.d.mul(other.d)),
        )
    }
}

impl<A: Algebra> Transform<A> for Moebius<A> {
    /// `(a*x + b) / (c*x + d)`, the coefficient on the left of the point.
    open spec fn apply_spec(&self, x: A) -> A {
        self.numerator(x).div_spec(self.denominator(x))
    }

    /// Evaluates `(a*x + b) / (c*x + d)` in this order: the two products, the
    /// two sums, then the division, whatever the denominator is.
    fn apply(&self, x: A) -> (image: A)
        ensures
            image == self.a.mul_spec(x).add_spec(self.b).div_spec(
                self.c.mul_spec(x).add_spec(self.d),
            ),
    {
        self.a.mul(x).add(self.b).div(self.c.mul(x).add(self.d))
    }
}

} // verus!
