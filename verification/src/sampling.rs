//! The library's only source of randomness: channel sampling for material
//! colors, through the `rand` crate's standard generator.

use vstd::prelude::*;
use rand::RngExt;

verus! {

#[verifier::external_type_specification]
#[verifier::external_body]
pub struct ExStdRng(rand::rngs::StdRng);

/// Relies on rand's `RngExt::random_range` over the range `0..bound`: the
/// sample always lies in the range, and the call panics only when the
/// range is empty. Nothing else is assumed of the drawn value.
#[verifier::external_body]
pub(crate) fn rand_below(rng: &mut rand::rngs::StdRng, bound: u32) -> (r: u32)
    requires
        bound >= 1,
    ensures
        r < bound,
{
    rng.random_range(0..bound)
}

} // verus!
