//! The random number generator of `rand` that the samplers and the renderer
//! draw from, and the contracts this library relies on for it.
use vstd::prelude::*;
use rand::rngs::StdRng;
use rand::seq::SliceRandom;
use rand::Rng;
use rand::SeedableRng;

verus! {

/// `rand::rngs::StdRng`, carried through the samplers as an opaque value.
#[verifier::external_type_specification]
#[verifier::external_body]
pub struct ExStdRng(StdRng);

/// `getrandom::Error`, the failure of the operating system's entropy source.
#[verifier::external_type_specification]
#[verifier::external_body]
pub struct ExGetrandomError(getrandom::Error);

/// The operating system could not provide entropy to seed a generator.
#[derive(Clone, Copy, Debug, PartialEq, Eq, Structural)]
pub enum EntropyUnavailable {
    EntropyUnavailable,
}

/// Calls `<StdRng as SeedableRng>::try_from_os_rng`: a generator seeded from
/// the operating system's entropy source, or the source's error. Which of the
/// two comes back, and the seed, depend on the machine, so nothing is claimed
/// of the result.
#[verifier::external_body]
fn try_std_rng_from_os_rng() -> (rng: Result<StdRng, getrandom::Error>)
{
    StdRng::try_from_os_rng()
}

/// A generator seeded from the operating system's entropy source, or
/// `EntropyUnavailable` when the source fails.
pub fn os_seeded_rng() -> (rng: Result<StdRng, EntropyUnavailable>)
{
    match try_std_rng_from_os_rng() {
        Ok(rng) => Ok(rng),
        Err(_) => Err(EntropyUnavailable::EntropyUnavailable),
    }
}

/// Calls `Rng::random::<u32>` on a `StdRng`, which returns the generator's
/// `next_u32()`: a draw that depends on the generator's state, so nothing is
/// claimed of its value.
#[verifier::external_body]
pub(crate) fn std_rng_next_u32(rng: &mut StdRng) -> (value: u32)
{
    rng.random::<u32>()
}

/// Calls `SliceRandom::shuffle` on the vector's slice with a `StdRng`. The
/// source (a Fisher-Yates shuffle made only of `swap` calls) shows that the
/// result holds the same items as before, each as often; which permutation
/// comes out depends on the generator and is not stated.
#[verifier::external_body]
pub(crate) fn shuffle_with_std_rng<T>(items: &mut Vec<T>, rng: &mut StdRng)
    ensures
        final(items)@.len() == old(items)@.len(),
        final(items)@.to_multiset() == old(items)@.to_multiset(),
{
    items.as_mut_slice().shuffle(rng)
}

} // verus!
