//! The engine's one source of chance.

use vstd::prelude::*;

verus! {

/// Draws a coordinate with `rand::random_range` over the half-open range
/// `0..bound`, using the thread-local generator.
///
/// Not proved: `rand` documents that the value lies in the range it is
/// given and that an empty range panics, so the range is required to be
/// non-empty and the result is stated to be at least zero and below
/// `bound`. Which value comes out is left open; two draws may differ.
/// The generator also panics if the operating system's entropy source
/// fails while it is seeded, which no argument can rule out.
#[verifier::external_body]
pub(crate) fn random_coordinate(bound: i32) -> (r: i32)
    requires
        bound > 0,
    ensures
        0 <= r < bound,
{
    rand::random_range(0..bound)
}

} // verus!
