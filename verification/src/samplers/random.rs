//! A sampler that draws every sample uniformly from `[0, 1)`.
use vstd::prelude::*;
use rand::rngs::StdRng;
use crate::random_source::os_seeded_rng;
use crate::random_source::EntropyUnavailable;
use crate::stratification::draw_uniform_logged;
use crate::stratification::draw_uniform_pair_logged;
use crate::stratification::draws_one;
use crate::stratification::draws_pair;
use crate::stratification::Sample2D;
use crate::stratification::StratumSample;

verus! {

/// Draws independent uniform samples from a generator seeded by the
/// operating system.
pub struct RandomSampler {
    rng: StdRng,
    drawn: Ghost<Seq<u32>>,
}

impl RandomSampler {
    /// The words this sampler has drawn from its generators so far, in order.
    pub closed spec fn drawn(&self) -> Seq<u32> {
        self.drawn@
    }

    /// A sampler with a generator freshly seeded from the operating system,
    /// or `EntropyUnavailable` when the operating system cannot seed one. The
    /// seed depends on the machine, so nothing more is stated.
    pub fn new() -> (sampler: Result<Self, EntropyUnavailable>)
        ensures
            sampler matches Ok(s) ==> s.drawn() == Seq::<u32>::empty(),
    {
        match os_seeded_rng() {
            Ok(rng) => Ok(RandomSampler { rng, drawn: Ghost(Seq::empty()) }),
            Err(e) => Err(e),
        }
    }

    /// A new sampler with its own freshly seeded generator, as `new` makes.
    pub fn fork(&self) -> (sampler: Result<Self, EntropyUnavailable>)
        ensures
            sampler matches Ok(s) ==> s.drawn() == Seq::<u32>::empty(),
    {
        RandomSampler::new()
    }

    /// Reseeds the generator from the operating system before the samples of
    /// a pixel are drawn. When the operating system cannot seed a generator
    /// the sampler is left as it was; the new seed depends on the machine, so
    /// nothing more is stated.
    pub fn preprocess(&mut self, _samples_per_pixel: usize) -> (outcome: Result<(), EntropyUnavailable>)
        ensures
            outcome is Err ==> *final(self) == *old(self),
            final(self).drawn() == old(self).drawn(),
    {
        match os_seeded_rng() {
            Ok(rng) => {
                self.rng = rng;
                Ok(())
            },
            Err(e) => Err(e),
        }
    }

    /// Nothing changes from one round to the next: every draw is independent.
    pub fn update_round(&mut self)
        ensures
            *final(self) == *old(self),
    {
    }

    /// A uniform draw from `[0, 1)`: the sample that the generator's next
    /// word gives.
    pub fn get_1d_sample(&mut self) -> (sample: StratumSample)
        ensures
            sample.is_uniform(),
            draws_one(old(self).drawn(), final(self).drawn(), sample),
    {
        let (sample, drawn) = draw_uniform_logged(&mut self.rng, self.drawn);
        self.drawn = drawn;
        sample
    }

    /// Two uniform draws from `[0, 1)`, the first one for the `x` axis
    /// taken from the generator's next two words.
    pub fn get_2d_sample(&mut self) -> (sample: Sample2D)
        ensures
            sample.0.is_uniform(),
            sample.1.is_uniform(),
            draws_pair(old(self).drawn(), final(self).drawn(), sample),
    {
        let (sample, drawn) = draw_uniform_pair_logged(&mut self.rng, self.drawn);
        self.drawn = drawn;
        sample
    }
}

} // verus!
