//! The entropy source: a jitter-seeded generator of uniformly distributed
//! draws in `[MIN_RAND, MAX_RAND)`.
//!
//! Randomness comes from `rand`'s `JitterRng`, which collects entropy from
//! small timing variations observed on a monotonically queried timestamp
//! primitive. The draws need not be cryptographically strong; they only feed
//! the fault-injection roulette. Callers that share one source across
//! execution contexts must serialize access to it themselves (the source
//! takes `&mut self` for every draw).

use vstd::prelude::*;

verus! {

/// The inclusive lower bound of every draw.
pub const MIN_RAND: u8 = 0;

/// The exclusive upper bound of every draw, and the inclusive upper bound of
/// the configured fault chance.
pub const MAX_RAND: u8 = 100;

#[verifier::external_type_specification]
#[verifier::external_body]
pub struct ExJitterRng(rand::rngs::JitterRng);

/// Relies on `std::time::SystemTime::now`: a nanosecond-resolution reading of
/// the system clock, used only as a jitter source for seeding. Nothing is
/// assumed of the value.
#[verifier::external_body]
fn now_nanos() -> u64 {
    match std::time::SystemTime::now().duration_since(std::time::UNIX_EPOCH) {
        Ok(d) => d.as_nanos() as u64,
        Err(e) => e.duration().as_nanos() as u64,
    }
}

/// Relies on `rand::rngs::JitterRng::new_with_timer`: builds a generator that
/// gathers entropy from jitter observed on the given timer. Construction
/// itself neither fails nor draws; nothing is assumed of the generator's
/// state.
#[verifier::external_body]
fn new_jitter_rng() -> rand::rngs::JitterRng {
    rand::rngs::JitterRng::new_with_timer(now_nanos)
}

/// Relies on `rand::Rng::gen_range`: returns a value uniformly distributed in
/// `[low, high)`, and panics only when `low >= high`, which the precondition
/// rules out.
#[verifier::external_body]
fn gen_range_u8(rng: &mut rand::rngs::JitterRng, low: u8, high: u8) -> (r: u8)
    requires
        low < high,
    ensures
        low <= r < high,
{
    rand::Rng::gen_range(rng, low, high)
}

/// A jitter-seeded source of random draws in `[MIN_RAND, MAX_RAND)`.
pub struct EntropySource {
    rng: rand::rngs::JitterRng,
}

impl EntropySource {
    /// Builds the source around a fresh jitter generator seeded from the
    /// system timestamp primitive.
    pub fn new() -> Self {
        EntropySource { rng: new_jitter_rng() }
    }

    /// Draws one value, uniformly distributed in `[MIN_RAND, MAX_RAND)`.
    pub fn draw(&mut self) -> (r: u8)
        ensures
            MIN_RAND <= r < MAX_RAND,
    {
        gen_range_u8(&mut self.rng, MIN_RAND, MAX_RAND)
    }
}

} // verus!
