//! The source of random offsets and bytes that strategies draw from.

use vstd::prelude::*;
use super::input::EngineError;
use rand::Rng;
use rand::SeedableRng;

verus! {

/// `rand::rngs::StdRng`, the generator behind every [`RandomSource`]. Its
/// state is opaque to the verifier.
#[verifier::external_type_specification]
#[verifier::external_body]
pub struct ExStdRng(rand::rngs::StdRng);

/// `rand::Error`, the failure that a generator's seeding can end in.
#[verifier::external_type_specification]
#[verifier::external_body]
pub struct ExRandError(rand::Error);

/// Calls `SeedableRng::seed_from_u64` for `StdRng`, which expands the seed
/// and never fails. Nothing is claimed of the generator that comes back.
#[verifier::external_body]
fn generator_from_seed(seed: u64) -> (generator: rand::rngs::StdRng) {
    rand::rngs::StdRng::seed_from_u64(seed)
}

/// Calls `SeedableRng::from_rng` for `StdRng` on `rand::rngs::OsRng`, which
/// hands on a failure of the operating system's entropy source as an error
/// instead of panicking. Nothing is claimed of which way the call ends.
#[verifier::external_body]
fn generator_from_os() -> (seeded: Result<rand::rngs::StdRng, rand::Error>) {
    rand::rngs::StdRng::from_rng(rand::rngs::OsRng)
}

/// Calls `Rng::gen_range` with the half-open range `low..high`. The call
/// panics on a range that holds no value, which `requires` leaves out. For
/// `usize` the sampler returns `low` plus a value below `high - low`; that
/// the result lies in the range is all that is claimed.
#[verifier::external_body]
fn sample_offset(generator: &mut rand::rngs::StdRng, low: usize, high: usize) -> (offset: usize)
    requires
        low < high,
    ensures
        low <= offset < high,
{
    generator.gen_range(low..high)
}

/// Calls `Rng::gen_range` with `0..=255`, the whole of `u8`, which is never
/// empty. Nothing is claimed of the byte drawn.
#[verifier::external_body]
fn sample_byte(generator: &mut rand::rngs::StdRng) -> (byte: u8) {
    generator.gen_range(0..=255)
}

/// A stream of random choices, handed explicitly to whatever consumes
/// randomness.
///
/// A source made by [`RandomSource::seeded`] is meant for runs that must be
/// repeatable; one made by [`RandomSource::from_entropy`] for runs that must
/// not be. The contracts promise no more of either than the interval a draw
/// falls in.
pub struct RandomSource {
    generator: rand::rngs::StdRng,
}

impl RandomSource {
    /// A source whose stream is fixed by `seed`.
    pub fn seeded(seed: u64) -> (source: RandomSource) {
        RandomSource::from_generator(generator_from_seed(seed))
    }

    /// A source seeded by the operating system, or `None` when the system
    /// has no entropy to give.
    pub fn from_entropy() -> (source: Option<RandomSource>) {
        // The system decides whether it has entropy to give, and nothing
        // is known of its answer before the call comes back; `from_seeding`
        // says what is made of either answer.
        RandomSource::from_seeding(generator_from_os())
    }

    /// Draws an offset from `[low, high)`.
    ///
    /// Nothing is drawn from an interval that holds no offset: an empty one
    /// is refused as `EmptyRange`, a reversed one as `InvalidRange`.
    pub fn next_offset(&mut self, low: usize, high: usize) -> (drawn: Result<usize, EngineError>)
        ensures
            drawn is Ok <==> low < high,
            drawn is Ok ==> low <= drawn->Ok_0 < high,
            drawn is Err && low == high ==> drawn->Err_0 == EngineError::EmptyRange,
            drawn is Err && low > high ==> drawn->Err_0 == EngineError::InvalidRange,
    {
        if low < high {
            Ok(sample_offset(&mut self.generator, low, high))
        } else if low == high {
            Err(EngineError::EmptyRange)
        } else {
            Err(EngineError::InvalidRange)
        }
    }

    /// Draws a byte; every value of `u8` may come.
    pub fn next_byte(&mut self) -> (byte: u8) {
        sample_byte(&mut self.generator)
    }

    /// The generator that the source draws from.
    pub closed spec fn generator(&self) -> rand::rngs::StdRng {
        self.generator
    }

    /// A source that draws from `generator`, however that was seeded.
    pub fn from_generator(generator: rand::rngs::StdRng) -> (source: RandomSource)
        ensures
            source.generator() == generator,
    {
        RandomSource { generator }
    }

    /// A source from the outcome of seeding a generator: one that draws
    /// from the generator where the seeding succeeded, none where it failed.
    pub fn from_seeding(seeding: Result<rand::rngs::StdRng, rand::Error>) -> (source: Option<
        RandomSource,
    >)
        ensures
            source is Some <==> seeding is Ok,
            seeding is Ok ==> source->Some_0.generator() == seeding->Ok_0,
    {
        match seeding {
            Ok(generator) => Some(RandomSource::from_generator(generator)),
            Err(_) => None,
        }
    }
}

} // verus!
