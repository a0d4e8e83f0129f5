//! The few facts about `std::time::Duration` that the scheduling logic needs.
//!
//! A `Duration` is opaque to Verus. Its value is named by `duration_nanos`,
//! the total number of nanoseconds it spans; the wrappers below state what the
//! standard library documents about the conversions the library uses.
use std::time::Duration;
use vstd::prelude::*;

verus! {

/// The largest number of nanoseconds a `Duration` can span
/// (`Duration::MAX` is `u64::MAX` seconds and 999_999_999 nanoseconds).
pub open spec fn max_duration_nanos() -> nat {
    (u64::MAX as nat) * 1_000_000_000 + 999_999_999
}

/// The largest number of whole milliseconds a `Duration` can span.
pub open spec fn max_duration_millis() -> nat {
    (u64::MAX as nat) * 1000 + 999
}

/// The total number of nanoseconds that `Duration::as_nanos` returns for `d`.
pub uninterp spec fn duration_nanos(d: Duration) -> nat;

/// The whole milliseconds spanned by `d`.
pub open spec fn duration_millis(d: Duration) -> nat {
    duration_nanos(d) / 1_000_000
}

/// Calls `Duration::as_nanos`. Claims that the result is the value named by
/// `duration_nanos` and that it does not exceed the span of `Duration::MAX`.
#[verifier::external_body]
pub fn duration_as_nanos(d: &Duration) -> (r: u128)
    ensures
        r == duration_nanos(*d),
        r <= max_duration_nanos(),
{
    d.as_nanos()
}

/// Calls `Duration::as_millis`. Claims that the result is the number of whole
/// milliseconds in `d`, as the standard library documents, and so at most the
/// whole milliseconds of `Duration::MAX`.
#[verifier::external_body]
pub fn duration_as_millis(d: &Duration) -> (r: u128)
    ensures
        r == duration_millis(*d),
        r <= max_duration_millis(),
{
    d.as_millis()
}

/// Calls `Duration::from_millis`. Claims that the result spans exactly `ms`
/// milliseconds.
#[verifier::external_body]
pub fn duration_from_millis(ms: u64) -> (d: Duration)
    ensures
        duration_nanos(d) == ms * 1_000_000,
{
    Duration::from_millis(ms)
}

} // verus!
