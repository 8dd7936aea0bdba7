//! A probability-controlled fault-injection primitive.
//!
//! The library keeps a shared configuration record whose `chance` field, a
//! threshold on a 0–100 scale, decides how likely a call to [`roulette::sample`]
//! is to classify its draw as a deliberate fault. Entropy comes from a
//! jitter-seeded generator; diagnostics are formatted as plain text for a host
//! output primitive; allocation sizing mirrors a buddy allocator's alignment
//! behaviour.

pub mod entropy;
pub mod fault;
pub mod io;
pub mod mem;
pub mod roulette;
