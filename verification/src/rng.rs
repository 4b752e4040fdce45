//! The one randomness primitive the animation consumes: a uniform draw from a
//! half-open range, taken from a xorshift generator.

use vstd::prelude::*;

verus! {

/// Declares rand_xorshift's XorShiftRng so generator state can flow through
/// verified code; the generator itself stays opaque.
#[verifier::external_type_specification]
#[verifier::external_body]
pub struct ExXorShiftRng(rand_xorshift::XorShiftRng);

/// Relies on rand::Rng::gen_range: for a nonempty range `lo..hi` it returns a
/// uniformly drawn value that is at least `lo` and strictly below `hi`, and it
/// panics on an empty range, which the precondition rules out.
#[verifier::external_body]
pub(crate) fn gen_range_usize(rng: &mut rand_xorshift::XorShiftRng, lo: usize, hi: usize) -> (r:
    usize)
    requires
        lo < hi,
    ensures
        lo <= r < hi,
{
    rand::Rng::gen_range(rng, lo..hi)
}

} // verus!
