//! Failure conditions of the generator subsystem.
//!
//! Every operation is synchronous and all-or-nothing: a failed call reports
//! one of these conditions to its immediate caller and leaves the generator
//! state exactly as it was (initialization performed as fork remediation is
//! the one documented exception, see [`crate::registry`]).

use vstd::prelude::*;

verus! {

/// The conditions under which an operation of this crate can fail.
#[derive(Clone, Copy, Debug, PartialEq, Eq, Structural)]
pub enum SnowflakeError {
    /// The supplied machine id or epoch offset differs from the
    /// configuration the process is already committed to.
    ConfigMismatch,
    /// An operation that needs an established configuration was invoked
    /// while the slot is still empty.
    NotInitialized,
    /// The clock was observed strictly before the sequencer's last adopted
    /// millisecond (or before the configured epoch); the call fails at once
    /// rather than waiting for the clock to catch up.
    ClockRegression,
    /// The per-millisecond sequence counter is spent and the clock did not
    /// advance to the next millisecond within the bounded retry budget.
    SequenceExhausted,
    /// A field value does not fit the fixed bit width reserved for it in an
    /// identifier; the value is rejected rather than silently truncated.
    FieldOutOfRange,
}

} // verus!
