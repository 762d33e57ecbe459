//! Core logic of a proof-of-work mining client: the parallel nonce-search
//! engine, bus-selection load balancing, epoch/reset timing policy,
//! transaction shaping, and the orchestrating cycle state machine.
//!
//! Network reads, transaction signing/broadcast and console output are
//! external collaborators; they live outside this library and hand it plain
//! snapshot values.

pub mod bus;
mod clock;
pub mod custom_hash;
pub mod oracle;
pub mod orchestrator;
pub mod policy;
mod rng;
pub mod search;
pub mod shaper;
