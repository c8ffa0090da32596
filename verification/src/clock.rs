//! The monotonic clock of std, which the time-based decisions read.
use vstd::prelude::*;

verus! {

/// A reading of std's monotonic clock, carried through unchanged.
#[verifier::external_type_specification]
#[verifier::external_body]
pub struct ExInstant(std::time::Instant);

/// `Instant::clone` copies the reading (`Instant` is `Copy`).
pub assume_specification[<std::time::Instant as std::clone::Clone>::clone](i: &std::time::Instant) -> (r: std::time::Instant)
    ensures
        r == *i,
;

/// Calls `Instant::now`; the reading depends on the time, so nothing is stated
/// of it.
#[verifier::external_body]
pub fn instant_now() -> (r: std::time::Instant) {
    std::time::Instant::now()
}

/// Calls `Instant::elapsed` and converts the duration with
/// `Duration::as_nanos`; the value depends on the time, so nothing is stated of
/// it.
#[verifier::external_body]
pub fn elapsed_nanos(i: &std::time::Instant) -> (r: u128) {
    i.elapsed().as_nanos()
}

/// Calls `Instant::duration_since` (which gives zero where `later` is the
/// earlier reading) and converts with `Duration::as_nanos`; no view of an
/// `Instant` is kept, so nothing is stated of the value.
#[verifier::external_body]
pub fn nanos_between(earlier: &std::time::Instant, later: &std::time::Instant) -> (r: u128) {
    later.duration_since(*earlier).as_nanos()
}

/// Calls `chrono::Utc::now` and `DateTime::timestamp`: the present time in
/// seconds since the Unix epoch; it depends on the time, so nothing is stated
/// of it.
#[verifier::external_body]
pub fn current_unix_seconds() -> (r: i64) {
    chrono::Utc::now().timestamp()
}

/// Calls `chrono::Utc::now` and `DateTime::timestamp_millis`: the present
/// time in milliseconds since the Unix epoch; it depends on the time, so
/// nothing is stated of it.
#[verifier::external_body]
pub fn current_unix_millis() -> (r: i64) {
    chrono::Utc::now().timestamp_millis()
}

} // verus!
