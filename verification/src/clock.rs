//! Wall-clock readings. A reading depends on the machine's clock, so
//! nothing is promised of the values; everything computed from them is
//! verified for every value they could take.

use vstd::prelude::*;

verus! {

#[verifier::external_type_specification]
#[verifier::external_body]
pub struct ExInstant(std::time::Instant);

/// Relies on std::time::Instant::now: a reading of the monotonic
/// clock; nothing is promised of its value.
pub assume_specification[ std::time::Instant::now ]() -> (r: std::time::Instant);

/// Relies on std::time::Instant::elapsed: the whole milliseconds since
/// the reading was taken, capped at `u64::MAX`; nothing is promised of
/// the value.
#[verifier::external_body]
pub fn elapsed_ms(start: &std::time::Instant) -> u64 {
    start.elapsed().as_millis().try_into().unwrap_or(u64::MAX)
}

} // verus!
