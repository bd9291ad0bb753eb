//! A deterministic two-party combat engine.
//!
//! A battle session collects one turn submission per player per turn slot,
//! resolves each ready pair of submissions through a fixed-point damage
//! pipeline fed by a per-session pseudo-random source, advances rounds,
//! and on termination settles stakes and aggregates combat statistics.
//! Every step is a pure function of the session state and the inputs, so
//! replaying the same inputs against the same seed reproduces the same
//! final state and the same outbound messages.

pub mod fixed;
pub mod rng;
pub mod types;
pub mod damage;
pub mod stats;
pub mod combat;
pub mod session;
pub mod fighter;
pub mod laws;
