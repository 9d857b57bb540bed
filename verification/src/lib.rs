//! Snowflake identifiers: process-wide unique 64-bit IDs built from a
//! millisecond timestamp (relative to a configurable epoch), a caller-assigned
//! machine id, and a per-millisecond sequence counter.
//!
//! The crate is organised around three layers:
//! - [`codec`]: pure bit packing and unpacking of the three fields;
//! - [`sequencer`]: the per-process counter state and its transition rules;
//! - [`registry`]: the slot that owns at most one generator per process,
//!   with first-writer-wins initialization, configuration checking and
//!   fork detection.
//!
//! The slot is an explicit, caller-owned value threaded through all calls;
//! an embedding application that needs a process-wide singleton wraps one
//! slot in a single exclusive lock spanning every check and write.
//!
//! Where the design admits more than one legitimate policy, this crate picks
//! one and keeps it throughout:
//! - a detected fork is remediated by transparently rebuilding the state
//!   with the caller's configuration, never by failing the call;
//! - the configuration is passed to every generation call and re-validated
//!   there, rather than only once at initialization;
//! - a clock observed behind the last adopted millisecond (or before the
//!   configured epoch) fails at once with a clock-regression condition,
//!   rather than waiting for the clock to catch up;
//! - an exhausted per-millisecond sequence is retried against fresh clock
//!   readings a bounded number of times, then surfaces an exhaustion
//!   condition.

mod clock;
pub mod codec;
pub mod errors;
pub mod registry;
pub mod sequencer;
