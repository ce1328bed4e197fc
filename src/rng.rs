//! The one pseudo-random stream of a game, and the draws that the map and the
//! creatures make from it.
use rand::Rng;
use rand::SeedableRng;
use rand_pcg::Pcg64;
use vstd::prelude::*;

verus! {

#[verifier::external_type_specification]
#[verifier::external_body]
pub struct ExPcg64(rand_pcg::Lcg128Xsl64);

/// Relies on rand_core's `SeedableRng::seed_from_u64` for `Pcg64`: a
/// generator whose stream is fixed by the seed.
#[verifier::external_body]
pub(crate) fn seeded(seed: u64) -> Pcg64 {
    Pcg64::seed_from_u64(seed)
}

/// Relies on rand's `Rng::gen_ratio`: `true` with chance
/// `numerator / denominator`; never when the numerator is zero, always when
/// it equals the denominator. It panics on a zero denominator or a numerator
/// above it, which `requires` leaves out.
#[verifier::external_body]
pub(crate) fn draw_ratio(rng: &mut Pcg64, numerator: u32, denominator: u32) -> (r: bool)
    requires
        0 < denominator,
        numerator <= denominator,
    ensures
        numerator == 0 ==> !r,
        numerator == denominator ==> r,
{
    rng.gen_ratio(numerator, denominator)
}

/// Relies on rand's `Rng::gen_range` for `i32`: a value in `[low, high)`. It
/// panics when `low >= high`, which `requires` leaves out.
#[verifier::external_body]
pub(crate) fn draw_i32(rng: &mut Pcg64, low: i32, high: i32) -> (r: i32)
    requires
        low < high,
    ensures
        low <= r < high,
{
    rng.gen_range(low, high)
}

/// Relies on rand's `Rng::gen_range` for `usize`: a value in `[low, high)`. It
/// panics when `low >= high`, which `requires` leaves out.
#[verifier::external_body]
pub(crate) fn draw_usize(rng: &mut Pcg64, low: usize, high: usize) -> (r: usize)
    requires
        low < high,
    ensures
        low <= r < high,
{
    rng.gen_range(low, high)
}

} // verus!
