//! The prelude brings both capabilities of a transform into scope.

use moebius::gf2::Gf2;
use moebius::transform::prelude::{Chain, Transform};
use moebius::transform::Moebius;

#[test]
fn prelude_gives_apply_and_chain() {
    let swap = Moebius::new(Gf2(false), Gf2(true), Gf2(true), Gf2(false));
    assert_eq!(swap.apply(Gf2(true)), Gf2(true));
    let twice = swap.chain(&swap);
    assert_eq!(
        (twice.a, twice.b, twice.c, twice.d),
        (Gf2(true), Gf2(false), Gf2(false), Gf2(true))
    );
}
