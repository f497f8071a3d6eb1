//! The spawner's seeded pseudo-random generator. The generator itself comes
//! from the `rand_pcg` crate; this module declares its type and wraps the
//! three draws the spawner makes.

use vstd::prelude::*;
use rand::Rng;
use rand::SeedableRng;
use rand_pcg::Pcg64;

verus! {

/// Declares `rand_pcg::Pcg64` (the `Lcg128Xsl64` generator) so that it can
/// stand in fields and signatures; its inside stays opaque.
#[verifier::external_type_specification]
#[verifier::external_body]
pub struct ExLcg128Xsl64(rand_pcg::Lcg128Xsl64);

/// Relies on `rand::SeedableRng::seed_from_u64` for `Pcg64`: builds a
/// generator from a 64-bit seed. Nothing is claimed of the state it holds.
#[verifier::external_body]
pub fn rng_from_seed(seed: u64) -> Pcg64 {
    Pcg64::seed_from_u64(seed)
}

/// Relies on `rand::Rng::gen` for `bool`: draws one coin flip. Nothing can
/// be claimed of which side comes up.
#[verifier::external_body]
pub fn rng_bool(rng: &mut Pcg64) -> bool {
    rng.gen()
}

/// Relies on `rand::Rng::gen_range` on a half-open `i32` range: the draw
/// lies in `[lo, hi)`. The call panics on an empty range, which `requires`
/// excludes.
#[verifier::external_body]
pub fn rng_range(rng: &mut Pcg64, lo: i32, hi: i32) -> (r: i32)
    requires
        lo < hi,
    ensures
        lo <= r < hi,
{
    rng.gen_range(lo..hi)
}

} // verus!
