//! What chaining means, and over which algebras.
//!
//! A transform asks an algebra for three operations and for no law. The
//! theorems here say what follows once the algebra does obey laws: each names
//! the laws it needs as a hypothesis, so it holds of every algebra that meets
//! them and says nothing of one that does not.

use crate::traits::Algebra;
use crate::transform::{Chain, Moebius, Transform};
use vstd::prelude::*;

verus! {

/// Addition is commutative.
#[verifier::opaque]
pub open spec fn addition_is_commutative<A: Algebra>() -> bool {
    forall|x: A, y: A| #[trigger] x.add_spec(y) == y.add_spec(x)
}

/// Addition is associative.
#[verifier::opaque]
pub open spec fn addition_is_associative<A: Algebra>() -> bool {
    forall|x: A, y: A, z: A| #[trigger]
        x.add_spec(y).add_spec(z) == x.add_spec(y.add_spec(z))
}

/// Multiplication distributes over addition, from the left and from the right.
#[verifier::opaque]
pub open spec fn multiplication_distributes<A: Algebra>() -> bool {
    &&& forall|x: A, y: A, z: A| #[trigger]
        x.mul_spec(y.add_spec(z)) == x.mul_spec(y).add_spec(x.mul_spec(z))
    &&& forall|x: A, y: A, z: A| #[trigger]
        x.add_spec(y).mul_spec(z) == x.mul_spec(z).add_spec(y.mul_spec(z))
}

/// Multiplication is associative.
#[verifier::opaque]
pub open spec fn multiplication_is_associative<A: Algebra>() -> bool {
    forall|x: A, y: A, z: A| #[trigger]
        x.mul_spec(y).mul_spec(z) == x.mul_spec(y.mul_spec(z))
}

/// `A` is an associative algebra: the reals, the complex numbers and the
/// quaternions are, the octonions are not.
pub open spec fn is_associative_algebra<A: Algebra>() -> bool {
    &&& addition_is_commutative::<A>()
    &&& addition_is_associative::<A>()
    &&& multiplication_distributes::<A>()
    &&& multiplication_is_associative::<A>()
}

/// Adding `zero` changes nothing.
#[verifier::opaque]
pub open spec fn is_additive_identity<A: Algebra>(zero: A) -> bool {
    &&& forall|x: A| #[trigger] x.add_spec(zero) == x
    &&& forall|x: A| #[trigger] zero.add_spec(x) == x
}

/// A product with `zero` is `zero`.
#[verifier::opaque]
pub open spec fn annihilates<A: Algebra>(zero: A) -> bool {
    &&& forall|x: A| #[trigger] zero.mul_spec(x) == zero
    &&& forall|x: A| #[trigger] x.mul_spec(zero) == zero
}

/// `zero` is the zero of `A`: its additive identity, which annihilates.
pub open spec fn is_zero<A: Algebra>(zero: A) -> bool {
    &&& is_additive_identity(zero)
    &&& annihilates(zero)
}

/// `one` is the multiplicative identity of `A`: it leaves what it multiplies
/// or divides as it is.
#[verifier::opaque]
pub open spec fn is_one<A: Algebra>(one: A) -> bool {
    &&& forall|x: A| #[trigger] one.mul_spec(x) == x
    &&& forall|x: A| #[trigger] x.mul_spec(one) == x
    &&& forall|x: A| #[trigger] x.div_spec(one) == x
}

/// Division by anything but `zero` undoes multiplication from the right, and
/// is undone by it: `(x / y) * y == x` and `(x * y) / y == x`.
#[verifier::opaque]
pub open spec fn division_inverts_multiplication<A: Algebra>(zero: A) -> bool {
    &&& forall|x: A, y: A| y != zero ==> (#[trigger] x.div_spec(y)).mul_spec(y) == x
    &&& forall|x: A, y: A| y != zero ==> #[trigger] x.mul_spec(y).div_spec(y) == x
}

/// `A` is an associative division algebra with `zero` as its zero.
pub open spec fn is_associative_division_algebra<A: Algebra>(zero: A) -> bool {
    &&& is_associative_algebra::<A>()
    &&& annihilates(zero)
    &&& division_inverts_multiplication(zero)
}

/// `x + y == y + x`.
pub proof fn lemma_add_commutes<A: Algebra>(x: A, y: A)
    requires
        addition_is_commutative::<A>(),
    ensures
        x.add_spec(y) == y.add_spec(x),
{
    reveal(addition_is_commutative);
}

/// `(x + y) + z == x + (y + z)`.
pub proof fn lemma_add_associates<A: Algebra>(x: A, y: A, z: A)
    requires
        addition_is_associative::<A>(),
    ensures
        x.add_spec(y).add_spec(z) == x.add_spec(y.add_spec(z)),
{
    reveal(addition_is_associative);
}

/// `(x * y) * z == x * (y * z)`.
pub proof fn lemma_mul_associates<A: Algebra>(x: A, y: A, z: A)
    requires
        multiplication_is_associative::<A>(),
    ensures
        x.mul_spec(y).mul_spec(z) == x.mul_spec(y.mul_spec(z)),
{
    reveal(multiplication_is_associative);
}

/// `x * (y + z) == x*y + x*z`.
pub proof fn lemma_mul_distributes_left<A: Algebra>(x: A, y: A, z: A)
    requires
        multiplication_distributes::<A>(),
    ensures
        x.mul_spec(y.add_spec(z)) == x.mul_spec(y).add_spec(x.mul_spec(z)),
{
    reveal(multiplication_distributes);
}

/// `(x + y) * z == x*z + y*z`.
pub proof fn lemma_mul_distributes_right<A: Algebra>(x: A, y: A, z: A)
    requires
        multiplication_distributes::<A>(),
    ensures
        x.add_spec(y).mul_spec(z) == x.mul_spec(z).add_spec(y.mul_spec(z)),
{
    reveal(multiplication_distributes);
}

/// `x + zero == x` and `zero + x == x`.
pub proof fn lemma_add_zero<A: Algebra>(zero: A, x: A)
    requires
        is_additive_identity(zero),
    ensures
        x.add_spec(zero) == x,
        zero.add_spec(x) == x,
{
    reveal(is_additive_identity);
}

/// `zero * x == zero` and `x * zero == zero`.
pub proof fn lemma_mul_zero<A: Algebra>(zero: A, x: A)
    requires
        annihilates(zero),
    ensures
        zero.mul_spec(x) == zero,
        x.mul_spec(zero) == zero,
{
    reveal(annihilates);
}

/// `one * x == x`, `x * one == x` and `x / one == x`.
pub proof fn lemma_mul_div_one<A: Algebra>(one: A, x: A)
    requires
        is_one(one),
    ensures
        one.mul_spec(x) == x,
        x.mul_spec(one) == x,
        x.div_spec(one) == x,
{
    reveal(is_one);
}

/// `(x / y) * y == x` and `(x * y) / y == x`, for `y` other than zero.
pub proof fn lemma_div_inverts_mul<A: Algebra>(zero: A, x: A, y: A)
    requires
        division_inverts_multiplication(zero),
        y != zero,
    ensures
        x.div_spec(y).mul_spec(y) == x,
        x.mul_spec(y).div_spec(y) == x,
{
    reveal(division_inverts_multiplication);
}

/// Two sums of two add up alike when their inner terms change places:
/// `(w + x) + (y + z) == (w + y) + (x + z)`.
pub proof fn lemma_sum_interchange<A: Algebra>(w: A, x: A, y: A, z: A)
    requires
        addition_is_commutative::<A>(),
        addition_is_associative::<A>(),
    ensures
        w.add_spec(x).add_spec(y.add_spec(z)) == w.add_spec(y).add_spec(x.add_spec(z)),
{
    lemma_add_associates(w, x, y.add_spec(z));
    lemma_add_associates(x, y, z);
    lemma_add_commutes(x, y);
    lemma_add_associates(y, x, z);
    lemma_add_associates(w, y, x.add_spec(z));
}

/// A row `(p, q)` times a matrix, then times a column `(s, t)`, is the row
/// times what the matrix makes of the column.
proof fn lemma_row_matrix_column<A: Algebra>(p: A, q: A, n: Moebius<A>, s: A, t: A)
    requires
        is_associative_algebra::<A>(),
    ensures
        p.mul_spec(n.a).add_spec(q.mul_spec(n.c)).mul_spec(s).add_spec(
            p.mul_spec(n.b).add_spec(q.mul_spec(n.d)).mul_spec(t),
        ) == p.mul_spec(n.a.mul_spec(s).add_spec(n.b.mul_spec(t))).add_spec(
            q.mul_spec(n.c.mul_spec(s).add_spec(n.d.mul_spec(t))),
        ),
{
    let pas = p.mul_spec(n.a.mul_spec(s));
    let qcs = q.mul_spec(n.c.mul_spec(s));
    let pbt = p.mul_spec(n.b.mul_spec(t));
    let qdt = q.mul_spec(n.d.mul_spec(t));
    lemma_mul_associates(p, n.a, s);
    lemma_mul_associates(q, n.c, s);
    lemma_mul_associates(p, n.b, t);
    lemma_mul_associates(q, n.d, t);
    lemma_mul_distributes_right(p.mul_spec(n.a), q.mul_spec(n.c), s);
    lemma_mul_distributes_right(p.mul_spec(n.b), q.mul_spec(n.d), t);
    lemma_mul_distributes_left(p, n.a.mul_spec(s), n.b.mul_spec(t));
    lemma_mul_distributes_left(q, n.c.mul_spec(s), n.d.mul_spec(t));
    lemma_sum_interchange(pas, qcs, pbt, qdt);
}

/// A row `(p, q)` of a first matrix, taken through a second transform's
/// matrix and evaluated at `x`, is the row times the second transform's
/// numerator and denominator at `x`.
proof fn lemma_row_at_point<A: Algebra>(p: A, q: A, n: Moebius<A>, x: A)
    requires
        is_associative_algebra::<A>(),
    ensures
        p.mul_spec(n.a).add_spec(q.mul_spec(n.c)).mul_spec(x).add_spec(
            p.mul_spec(n.b).add_spec(q.mul_spec(n.d)),
        ) == p.mul_spec(n.numerator(x)).add_spec(q.mul_spec(n.denominator(x))),
{
    let pax = p.mul_spec(n.a.mul_spec(x));
    let qcx = q.mul_spec(n.c.mul_spec(x));
    lemma_mul_associates(p, n.a, x);
    lemma_mul_associates(q, n.c, x);
    lemma_mul_distributes_right(p.mul_spec(n.a), q.mul_spec(n.c), x);
    lemma_mul_distributes_left(p, n.a.mul_spec(x), n.b);
    lemma_mul_distributes_left(q, n.c.mul_spec(x), n.d);
    lemma_sum_interchange(pax, qcx, p.mul_spec(n.b), q.mul_spec(n.d));
}

/// With `y * w == u`, a row `(p, q)` times the column `(u, w)` is the row's
/// value at `y`, times `w`: `p*u + q*w == (p*y + q) * w`.
proof fn lemma_row_factors<A: Algebra>(p: A, q: A, u: A, w: A, y: A)
    requires
        is_associative_algebra::<A>(),
        y.mul_spec(w) == u,
    ensures
        p.mul_spec(u).add_spec(q.mul_spec(w)) == p.mul_spec(y).add_spec(q).mul_spec(w),
{
    lemma_mul_associates(p, y, w);
    lemma_mul_distributes_right(p.mul_spec(y), q, w);
}

/// Over an associative division algebra a chained transform acts as its two
/// parts in turn: `m.chain(n)` maps `x` to where `m` maps the image of `x`
/// under `n`. This holds at every point at which neither `n` nor the chained
/// transform divides by zero.
pub proof fn lemma_chain_acts_as_both_in_turn<A: Algebra>(
    m: Moebius<A>,
    n: Moebius<A>,
    x: A,
    zero: A,
)
    requires
        is_associative_division_algebra(zero),
        n.denominator(x) != zero,
        m.chain_spec(&n).denominator(x) != zero,
    ensures
        m.apply_spec(n.apply_spec(x)) == m.chain_spec(&n).apply_spec(x),
{
    let u = n.numerator(x);
    let w = n.denominator(x);
    let y = n.apply_spec(x);
    let mn = m.chain_spec(&n);
    let top = m.numerator(y);
    let bottom = m.denominator(y);
    let image = m.apply_spec(y);

    lemma_div_inverts_mul(zero, u, w);
    lemma_row_at_point(m.a, m.b, n, x);
    lemma_row_at_point(m.c, m.d, n, x);
    lemma_row_factors(m.a, m.b, u, w, y);
    lemma_row_factors(m.c, m.d, u, w, y);
    assert(mn.numerator(x) == top.mul_spec(w));
    assert(mn.denominator(x) == bottom.mul_spec(w));

    assert(bottom != zero) by {
        lemma_mul_zero(zero, w);
    }
    lemma_div_inverts_mul(zero, top, bottom);
    lemma_mul_associates(image, bottom, w);
    lemma_div_inverts_mul(zero, image, bottom.mul_spec(w));
}

/// Chaining is associative over an associative algebra: three transforms
/// chain to the same coefficients whichever two are chained first.
pub proof fn lemma_chain_is_associative<A: Algebra>(m: Moebius<A>, n: Moebius<A>, p: Moebius<A>)
    requires
        is_associative_algebra::<A>(),
    ensures
        m.chain_spec(&n).chain_spec(&p) == m.chain_spec(&n.chain_spec(&p)),
{
    lemma_row_matrix_column(m.a, m.b, n, p.a, p.c);
    lemma_row_matrix_column(m.a, m.b, n, p.b, p.d);
    lemma_row_matrix_column(m.c, m.d, n, p.a, p.c);
    lemma_row_matrix_column(m.c, m.d, n, p.b, p.d);
}

/// The transform `x -> p*x`, with the coefficients `(p, zero, zero, one)`.
pub open spec fn left_multiplication<A: Algebra>(p: A, zero: A, one: A) -> Moebius<A> {
    Moebius { a: p, b: zero, c: zero, d: one }
}

/// Left multiplication by `p` maps `x` to `p * x`.
pub proof fn lemma_left_multiplication_applies<A: Algebra>(p: A, zero: A, one: A, x: A)
    requires
        is_zero(zero),
        is_one(one),
    ensures
        left_multiplication(p, zero, one).apply_spec(x) == p.mul_spec(x),
{
    let px = p.mul_spec(x);
    lemma_add_zero(zero, px);
    lemma_mul_zero(zero, x);
    lemma_add_zero(zero, one);
    lemma_mul_div_one(one, px);
}

/// The transform with the coefficients `(one, zero, zero, one)` maps every
/// point to itself.
pub proof fn lemma_identity_transform<A: Algebra>(zero: A, one: A, x: A)
    requires
        is_zero(zero),
        is_one(one),
    ensures
        (Moebius { a: one, b: zero, c: zero, d: one }).apply_spec(x) == x,
{
    lemma_left_multiplication_applies(one, zero, one, x);
    lemma_mul_div_one(one, x);
}

/// Chaining rests on associativity. Where three elements do not associate,
/// `(p * q) * x != p * (q * x)`, the left multiplications by `p` and by `q`
/// chain into a transform that maps `x` elsewhere than the two in turn. So
/// over an algebra that is not associative, as the octonions are not, a
/// chained transform cannot stand for its parts.
pub proof fn lemma_chain_diverges_without_associativity<A: Algebra>(
    p: A,
    q: A,
    x: A,
    zero: A,
    one: A,
)
    requires
        is_zero(zero),
        is_one(one),
        p.mul_spec(q).mul_spec(x) != p.mul_spec(q.mul_spec(x)),
    ensures
        left_multiplication(p, zero, one).apply_spec(
            left_multiplication(q, zero, one).apply_spec(x),
        ) != left_multiplication(p, zero, one).chain_spec(
            &left_multiplication(q, zero, one),
        ).apply_spec(x),
{
    let m = left_multiplication(p, zero, one);
    let n = left_multiplication(q, zero, one);
    let pq = p.mul_spec(q);
    lemma_left_multiplication_applies(q, zero, one, x);
    lemma_left_multiplication_applies(p, zero, one, q.mul_spec(x));
    assert(m.chain_spec(&n) == left_multiplication(pq, zero, one)) by {
        lemma_mul_zero(zero, zero);
        lemma_mul_zero(zero, p);
        lemma_mul_zero(zero, q);
        lemma_mul_zero(zero, one);
        lemma_mul_div_one(one, one);
        lemma_add_zero(zero, pq);
        lemma_add_zero(zero, zero);
        lemma_add_zero(zero, one);
    }
    lemma_left_multiplication_applies(pq, zero, one, x);
}

/// Applying is a function of the transform and the point: equal inputs have
/// equal images.
pub proof fn lemma_apply_is_deterministic<A: Algebra>(
    m1: Moebius<A>,
    m2: Moebius<A>,
    x1: A,
    x2: A,
)
    requires
        m1 == m2,
        x1 == x2,
    ensures
        m1.apply_spec(x1) == m2.apply_spec(x2),
{
}

/// Chaining is a function of the two transforms: equal inputs chain to equal
/// transforms.
pub proof fn lemma_chain_is_deterministic<A: Algebra>(
    m1: Moebius<A>,
    n1: Moebius<A>,
    m2: Moebius<A>,
    n2: Moebius<A>,
)
    requires
        m1 == m2,
        n1 == n2,
    ensures
        m1.chain_spec(&n1) == m2.chain_spec(&n2),
{
}

} // verus!
