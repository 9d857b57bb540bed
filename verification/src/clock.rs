//! The wall clock, read as milliseconds since the Unix epoch.
//!
//! The two trusted wrappers promise nothing about the values they return:
//! the clock can move arbitrarily between reads, so everything the crate
//! proves about generation holds for every possible reading.

use vstd::prelude::*;

verus! {

/// Relies on `std::time::SystemTime::elapsed`, called on the Unix epoch
/// itself: the wall clock's duration since 1970-01-01T00:00:00Z, or `None`
/// when the clock currently reads earlier than that instant.
#[verifier::external_body]
fn elapsed_since_unix_epoch() -> (r: Option<core::time::Duration>) {
    std::time::UNIX_EPOCH.elapsed().ok()
}

/// Relies on `core::time::Duration::as_millis`: the whole milliseconds of
/// the duration.
#[verifier::external_body]
fn duration_millis(d: &core::time::Duration) -> (r: u128) {
    d.as_millis()
}

/// The wall clock as whole milliseconds since the Unix epoch, clamped into
/// `u64`: a clock before the Unix epoch reads as zero, and one past the
/// `u64` millisecond range (hundreds of millions of years out) reads as
/// `u64::MAX`.
pub fn now_unix_millis() -> u64 {
    match elapsed_since_unix_epoch() {
        Some(d) => {
            let ms = duration_millis(&d);
            if ms > u64::MAX as u128 {
                u64::MAX
            } else {
                ms as u64
            }
        },
        None => 0,
    }
}

} // verus!
