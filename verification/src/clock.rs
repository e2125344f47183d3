use vstd::prelude::*;

verus! {

/// Lets `std::time::Instant` stand in signatures and fields; its value is opaque.
#[verifier::external_type_specification]
#[verifier::external_body]
pub struct ExInstant(std::time::Instant);

/// The current instant of the monotonic clock.
///
/// Trusted: calls `std::time::Instant::now`. Nothing is claimed of the result:
/// it depends on when the call is made.
#[verifier::external_body]
pub(crate) fn instant_now() -> std::time::Instant {
    std::time::Instant::now()
}

/// Nanoseconds that have passed since `t`, by the monotonic clock.
///
/// Trusted: calls `Instant::elapsed` and converts the `Duration` it returns with
/// `Duration::as_nanos`. Nothing is claimed of the result: it depends on when the
/// call is made.
#[verifier::external_body]
pub(crate) fn nanos_since(t: &std::time::Instant) -> u128 {
    t.elapsed().as_nanos()
}

/// The current UTC time as microseconds since the Unix epoch.
///
/// Trusted: calls `chrono::Utc::now` and converts the result with
/// `DateTime::timestamp_micros`, which covers every date chrono represents.
/// Nothing is claimed of the result: it depends on when the call is made.
/// (`Utc::now` panics when the system clock reads a time before the epoch.)
#[verifier::external_body]
pub(crate) fn utc_now_micros() -> i64 {
    chrono::Utc::now().timestamp_micros()
}

} // verus!
