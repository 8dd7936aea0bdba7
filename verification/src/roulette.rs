//! The roulette: a shared fault chance and the sampling operation that
//! decides, draw by draw, whether to inject a fault.
//!
//! The configuration holds one threshold, `chance`, on a `0..=MAX_RAND`
//! scale: the number of the `MAX_RAND` possible draws that count as a fault.
//! [`sample`] draws a value `v` from the entropy source and classifies it:
//! `v < chance` is a fault, anything else is returned unchanged. The
//! comparison is strict, so `chance` is exactly the percent chance of a
//! fault: `MIN_RAND` never faults and `MAX_RAND` always does.
//!
//! The structures here carry no lock of their own: a host that samples and
//! reconfigures from several execution contexts puts each singleton behind
//! its own mutual-exclusion primitive and, when it needs both, acquires the
//! entropy source's lock before the configuration's. Under that discipline a
//! concurrent history is a serialization of the operations below, and
//! [`lemma_serialized_writes_preserve_bounds`] shows that no serialization of
//! writes can push the stored chance out of `[MIN_RAND, MAX_RAND]`.

use vstd::prelude::*;

use crate::entropy::{EntropySource, MAX_RAND, MIN_RAND};

verus! {

/// The shared fault-injection configuration: the current chance of a fault,
/// always within `[MIN_RAND, MAX_RAND]`.
pub struct RouletteConfig {
    /// How many of the `MAX_RAND` possible draws count as a fault.
    pub chance: u8,
}

impl RouletteConfig {
    /// The configuration's invariant: the stored chance never leaves
    /// `[MIN_RAND, MAX_RAND]`.
    pub open spec fn wf(self) -> bool {
        MIN_RAND <= self.chance <= MAX_RAND
    }

    /// Picks the initial chance by one draw from the entropy source, so the
    /// fault probability is randomized at startup until a caller overrides
    /// it.
    pub fn new(entropy: &mut EntropySource) -> (c: Self)
        ensures
            MIN_RAND <= c.chance < MAX_RAND,
            c.wf(),
    {
        let chance = entropy.draw();
        RouletteConfig { chance }
    }
}

/// The fixed message the fatal-fault path reports for an injected fault.
pub const FAULT_MESSAGE: &'static str = "Boom!";

/// What one sampling operation comes to: an ordinary value handed back to
/// the caller, or a deliberate fault that terminates the calling context.
#[derive(Clone, Copy, Debug, PartialEq, Eq, Structural)]
pub enum SampleOutcome {
    /// The draw, returned unchanged.
    Value(u8),
    /// The draw fell under the configured chance: the caller must hand
    /// control to the fatal-fault path and never resume.
    Fault,
}

/// How a drawn value is classified against a chance: strictly below the
/// chance is a fault, anything else is the value itself.
pub open spec fn spec_classify(sampled: u8, chance: u8) -> SampleOutcome {
    if sampled < chance {
        SampleOutcome::Fault
    } else {
        SampleOutcome::Value(sampled)
    }
}

/// Classifies one drawn value against the configured chance.
///
/// The comparison is strict: a draw faults exactly when `sampled < chance`,
/// so `chance == MIN_RAND` never faults (no draw is below it) and
/// `chance == MAX_RAND` always does (every draw is below it).
pub fn classify(sampled: u8, chance: u8) -> (r: SampleOutcome)
    ensures
        r == spec_classify(sampled, chance),
{
    if sampled < chance {
        SampleOutcome::Fault
    } else {
        SampleOutcome::Value(sampled)
    }
}

/// Draws one value from the entropy source and classifies it against the
/// configuration: the outcome is the classification of some draw in
/// `[MIN_RAND, MAX_RAND)`. A returned value is always in that range and at
/// or above the chance; a fault can only come from a positive chance; the
/// maximal chance always faults.
pub fn sample(entropy: &mut EntropySource, config: &RouletteConfig) -> (r: SampleOutcome)
    ensures
        exists|v: u8|
            MIN_RAND <= v < MAX_RAND && #[trigger] spec_classify(v, config.chance) == r,
        r matches SampleOutcome::Value(v) ==> MIN_RAND <= v < MAX_RAND && config.chance <= v,
        r is Fault ==> config.chance > MIN_RAND,
        config.chance == MAX_RAND ==> r is Fault,
{
    let sampled = entropy.draw();
    classify(sampled, config.chance)
}

/// What a write attempt leaves in the configuration: values within
/// `[MIN_RAND, MAX_RAND]` replace the stored chance, anything else is
/// silently ignored.
pub open spec fn apply_set(chance: u8, value: u8) -> u8 {
    if MIN_RAND <= value <= MAX_RAND {
        value
    } else {
        chance
    }
}

/// Replaces the configured chance when `chance` lies within
/// `[MIN_RAND, MAX_RAND]`; otherwise the call is a silent no-op. Rejection
/// is deliberate policy, not an error: nothing is reported to the caller
/// and the stored value is untouched.
pub fn set_chance(config: &mut RouletteConfig, chance: u8)
    ensures
        final(config).chance == apply_set(old(config).chance, chance),
        old(config).wf() ==> final(config).wf(),
{
    if chance >= MIN_RAND && chance <= MAX_RAND {
        config.chance = chance;
    }
}

/// Reads the configured chance. The read disturbs nothing: the result is a
/// function of the configuration alone.
pub fn get_chance(config: &RouletteConfig) -> (r: u8)
    ensures
        r == config.chance,
{
    config.chance
}

/// With the chance at its minimum no draw faults; at its maximum every
/// draw does.
pub proof fn lemma_threshold_extremes(v: u8)
    requires
        MIN_RAND <= v < MAX_RAND,
    ensures
        spec_classify(v, MIN_RAND) == SampleOutcome::Value(v),
        spec_classify(v, MAX_RAND) == SampleOutcome::Fault,
{
}

/// Reads are idempotent: two results of [`get_chance`] on the same
/// configuration, with no write between them, are the same value.
pub proof fn lemma_get_chance_idempotent(config: RouletteConfig, first: u8, second: u8)
    requires
        first == config.chance,
        second == config.chance,
    ensures
        first == second,
{
}

/// The chance left by a serialization of write attempts, applied first to
/// last.
pub open spec fn apply_sets(chance: u8, values: Seq<u8>) -> u8
    decreases values.len(),
{
    if values.len() == 0 {
        chance
    } else {
        apply_sets(apply_set(chance, values[0]), values.subrange(1, values.len() as int))
    }
}

/// Under mutual exclusion a concurrent history of `sample`, `set_chance` and
/// `get_chance` calls is some serialization of them, and only the writes
/// touch the stored chance: no such serialization can push a well-formed
/// configuration out of `[MIN_RAND, MAX_RAND]`.
pub proof fn lemma_serialized_writes_preserve_bounds(chance: u8, values: Seq<u8>)
    requires
        MIN_RAND <= chance <= MAX_RAND,
    ensures
        MIN_RAND <= apply_sets(chance, values) <= MAX_RAND,
    decreases values.len(),
{
    if values.len() > 0 {
        lemma_serialized_writes_preserve_bounds(
            apply_set(chance, values[0]),
            values.subrange(1, values.len() as int),
        );
    }
}

} // verus!
