//! The random source: a seeded generator behind a counter of the draws made.

use rand::Rng;
use rand::SeedableRng;
use vstd::prelude::*;

verus! {

#[verifier::external_type_specification]
#[verifier::external_body]
pub struct ExStdRng(rand::rngs::StdRng);

/// `rand::Rng::gen_range` on an inclusive range of `u32`: the value drawn
/// lies within the range. The call panics on an empty range, which the
/// precondition leaves out. Nothing else is claimed of the value.
#[verifier::external_body]
fn sample_inclusive(rng: &mut rand::rngs::StdRng, low: u32, high: u32) -> (r: u32)
    requires
        low <= high,
    ensures
        low <= r <= high,
{
    rng.gen_range(low..=high)
}

/// `rand::SeedableRng::seed_from_u64` for `StdRng`: a generator made from a
/// seed. Nothing is claimed of the generator.
#[verifier::external_body]
fn seeded_generator(seed: u64) -> rand::rngs::StdRng {
    rand::rngs::StdRng::seed_from_u64(seed)
}

/// Whether `roll` is a face of a twenty-sided die.
pub open spec fn on_d20(roll: int) -> bool {
    1 <= roll <= 20
}

/// A source of dice rolls that counts how many rolls were drawn from it.
pub struct Dice {
    rng: rand::rngs::StdRng,
    drawn: Ghost<nat>,
}

impl Dice {
    /// The number of rolls drawn so far.
    pub closed spec fn drawn(&self) -> nat {
        self.drawn@
    }

    /// A source over the given generator, with no roll drawn yet.
    pub fn new(rng: rand::rngs::StdRng) -> (d: Dice)
        ensures
            d.drawn() == 0,
    {
        Dice { rng, drawn: Ghost(0) }
    }

    /// A source that is determined by `seed`, with no roll drawn yet.
    pub fn seeded(seed: u64) -> (d: Dice)
        ensures
            d.drawn() == 0,
    {
        Dice { rng: seeded_generator(seed), drawn: Ghost(0) }
    }

    /// Draws one roll between `low` and `high`, both included.
    pub fn roll(&mut self, low: u32, high: u32) -> (r: u32)
        requires
            low <= high,
        ensures
            low <= r <= high,
            final(self).drawn() == old(self).drawn() + 1,
    {
        let r: u32 = sample_inclusive(&mut self.rng, low, high);
        proof {
            self.drawn@ = self.drawn@ + 1;
        }
        r
    }

    /// Draws one roll of a twenty-sided die.
    pub fn d20(&mut self) -> (r: u32)
        ensures
            on_d20(r as int),
            final(self).drawn() == old(self).drawn() + 1,
    {
        self.roll(1, 20)
    }
}

} // verus!
