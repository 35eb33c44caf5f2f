//! The wall clock, the one thing the dispatcher reads that no model can
//! determine: when timing is enabled, the elapsed time of a call is attached
//! to its output.  Nothing is assumed about the values read.

use vstd::prelude::*;

verus! {

#[verifier::external_type_specification]
#[verifier::external_body]
pub struct ExInstant(std::time::Instant);

/// Relies on std::time::Instant::now for an opaque reading of the monotonic
/// clock.
#[verifier::external_body]
pub(crate) fn now() -> std::time::Instant {
    std::time::Instant::now()
}

/// Relies on std::time::Instant::elapsed for the time since `start`, here in
/// whole milliseconds, saturating at the largest representable value.
#[verifier::external_body]
pub(crate) fn millis_since(start: &std::time::Instant) -> u64 {
    u64::try_from(start.elapsed().as_millis()).unwrap_or(u64::MAX)
}

} // verus!
