//! The deterministic random-number core: a seedable generator with uniform
//! range sampling and the named dice helpers the engine draws from.
//!
//! The generator wraps `rand`'s `StdRng`. Its pseudo-random stream is modeled
//! by an abstract state: seeding fixes the state, and every draw returns a
//! value and a successor state that are functions of the state and the bounds
//! alone. Call order is therefore part of the observable contract — each draw
//! advances the shared stream.

use vstd::prelude::*;

verus! {

/// The underlying pseudo-random generator of the `rand` crate.
#[verifier::external_type_specification]
#[verifier::external_body]
pub struct ExStdRng(rand::rngs::StdRng);

/// The abstract state of a generator: everything that determines its future
/// draws.
pub uninterp spec fn stream_of(r: rand::rngs::StdRng) -> int;

/// The state that `StdRng::seed_from_u64` produces: a function of the seed
/// alone.
pub uninterp spec fn seed_stream(seed: u64) -> int;

/// What one inclusive uniform draw by `Rng::gen_range` on `StdRng` yields
/// from a given state and bounds: the drawn value and the successor state,
/// both functions of the arguments alone.
pub uninterp spec fn stream_step(state: int, low: i32, high: i32) -> (i32, int);

/// The single source of randomness for the engine: a seedable pseudo-random
/// generator, replaceable with a fixed seed for reproducible runs.
pub struct RandomNumberGenerator {
    rng: rand::rngs::StdRng,
}

impl RandomNumberGenerator {
    /// The abstract state of this generator's stream.
    pub closed spec fn stream(&self) -> int {
        stream_of(self.rng)
    }

    /// Creates a `RandomNumberGenerator` with a randomly selected starting
    /// seed; used in production flows, so nothing is promised of its stream.
    ///
    /// Relies on `StdRng::from_entropy` of the `rand` crate: a generator
    /// seeded from the operating system's entropy source.
    #[verifier::external_body]
    pub fn new() -> (r: RandomNumberGenerator) {
        RandomNumberGenerator { rng: <rand::rngs::StdRng as rand::SeedableRng>::from_entropy() }
    }

    /// Creates a `RandomNumberGenerator` from an explicit seed. Two instances
    /// constructed with the same seed produce the same output sequence for the
    /// same sequence of calls.
    ///
    /// Relies on `StdRng::seed_from_u64` of the `rand` crate: the generator's
    /// state is a function of the seed alone.
    #[verifier::external_body]
    pub fn seeded(seed: u64) -> (r: RandomNumberGenerator)
        ensures
            r.stream() == seed_stream(seed),
    {
        RandomNumberGenerator { rng: <rand::rngs::StdRng as rand::SeedableRng>::seed_from_u64(seed) }
    }

    /// Relies on `Rng::gen_range` of the `rand` crate on an inclusive range:
    /// it panics on an empty range and otherwise returns a uniform value
    /// within the bounds; on `StdRng` the value and the advanced generator are
    /// functions of the prior state and the bounds alone.
    #[verifier::external_body]
    fn sample_inclusive(&mut self, low: i32, high: i32) -> (r: i32)
        requires
            low <= high,
        ensures
            low <= r <= high,
            r == stream_step(stream_of(old(self).rng), low, high).0,
            stream_of(final(self).rng) == stream_step(stream_of(old(self).rng), low, high).1,
    {
        rand::Rng::gen_range(&mut self.rng, low..=high)
    }

    /// Returns a uniformly distributed integer in `low..=high` (inclusive)
    /// and advances the stream by one draw.
    pub fn range_inclusive(&mut self, low: i32, high: i32) -> (r: i32)
        requires
            low <= high,
        ensures
            low <= r <= high,
            r == stream_step(old(self).stream(), low, high).0,
            final(self).stream() == stream_step(old(self).stream(), low, high).1,
    {
        self.sample_inclusive(low, high)
    }

    /// Returns a uniformly distributed integer in `low..high` (exclusive
    /// upper bound) and advances the stream by one draw.
    pub fn range(&mut self, low: i32, high: i32) -> (r: i32)
        requires
            low < high,
        ensures
            low <= r < high,
            r == stream_step(old(self).stream(), low, (high - 1) as i32).0,
            final(self).stream() == stream_step(old(self).stream(), low, (high - 1) as i32).1,
    {
        self.sample_inclusive(low, high - 1)
    }

    /// One d100 roll: a uniform integer in `1..=100`.
    pub fn d100(&mut self) -> (r: i32)
        ensures
            1 <= r <= 100,
            r == stream_step(old(self).stream(), 1, 100).0,
            final(self).stream() == stream_step(old(self).stream(), 1, 100).1,
    {
        self.range_inclusive(1, 100)
    }

    /// One d20 roll: a uniform integer in `1..=20`.
    pub fn d20(&mut self) -> (r: i32)
        ensures
            1 <= r <= 20,
            r == stream_step(old(self).stream(), 1, 20).0,
            final(self).stream() == stream_step(old(self).stream(), 1, 20).1,
    {
        self.range_inclusive(1, 20)
    }

    /// One d6 roll: a uniform integer in `1..=6`.
    pub fn d6(&mut self) -> (r: i32)
        ensures
            1 <= r <= 6,
            r == stream_step(old(self).stream(), 1, 6).0,
            final(self).stream() == stream_step(old(self).stream(), 1, 6).1,
    {
        self.range_inclusive(1, 6)
    }

    /// One d3 roll: a uniform integer in `1..=3`.
    pub fn d3(&mut self) -> (r: i32)
        ensures
            1 <= r <= 3,
            r == stream_step(old(self).stream(), 1, 3).0,
            final(self).stream() == stream_step(old(self).stream(), 1, 3).1,
    {
        self.range_inclusive(1, 3)
    }
}

/// The values that a sequence of inclusive draws with the given bounds yields
/// from a starting state, in call order.
pub open spec fn stream_values(state: int, bounds: Seq<(i32, i32)>) -> Seq<i32>
    decreases bounds.len(),
{
    if bounds.len() == 0 {
        Seq::empty()
    } else {
        let step = stream_step(state, bounds[0].0, bounds[0].1);
        seq![step.0] + stream_values(step.1, bounds.drop_first())
    }
}

/// Determinism of seeding: two generators seeded alike are in the same state,
/// and any identical sequence of draws yields identical values at every step.
pub proof fn lemma_seeded_determinism(
    a: RandomNumberGenerator,
    b: RandomNumberGenerator,
    seed: u64,
    bounds: Seq<(i32, i32)>,
)
    requires
        a.stream() == seed_stream(seed),
        b.stream() == seed_stream(seed),
    ensures
        stream_values(a.stream(), bounds) == stream_values(b.stream(), bounds),
{
}

} // verus!
