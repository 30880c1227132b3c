//! Point-in-time state of a rollup contract's epoch and phase lifecycle,
//! rebuilt from the event log of a chain either from scratch (`sync`) or by
//! advancing a trusted state by one block (`fold`).
//!
//! The library decides; the caller fetches. Each path is split into a plan
//! (which sub-tracker snapshots to read) and an assembly step that takes the
//! snapshots as plain values and returns the new state or a typed error.

pub mod snapshot;
pub mod phase;
pub mod epoch;
pub mod bloom;
pub mod chain;

pub use epoch::EpochState;
pub use phase::ContractPhase;
