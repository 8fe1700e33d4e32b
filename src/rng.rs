//! Random draws, taken from the thread-local generator of `rand`.

use vstd::prelude::*;

use rand::Rng;

verus! {

/// Relies on `rand::Rng::gen_range` over `rand::thread_rng()`: a value drawn
/// from the half-open range `0..n`, which must not be empty.
#[verifier::external_body]
pub(crate) fn random_index(n: u8) -> (r: u8)
    requires
        n > 0,
    ensures
        r < n,
{
    rand::thread_rng().gen_range(0..n)
}

/// Relies on `rand::Rng::gen_ratio` over `rand::thread_rng()`: `true` with
/// probability `numerator / denominator`; always `true` when the two are equal
/// and always `false` when the numerator is zero. It panics when the
/// denominator is zero or below the numerator.
#[verifier::external_body]
pub(crate) fn random_ratio(numerator: u32, denominator: u32) -> (r: bool)
    requires
        0 < denominator,
        numerator <= denominator,
    ensures
        numerator == denominator ==> r,
        numerator == 0 ==> !r,
{
    rand::thread_rng().gen_ratio(numerator, denominator)
}

} // verus!
