//! Instants and spans, as `chrono` counts them.

use vstd::prelude::*;

verus! {

/// The first instant that `chrono` can hold, in Unix milliseconds: the start of the year -262143.
pub const MIN_UTC_MILLIS: i64 = -8_334_601_228_800_000;

/// The last instant that `chrono` can hold, in Unix milliseconds: the end of the year 262142.
pub const MAX_UTC_MILLIS: i64 = 8_210_266_876_799_999;

/// The longest span that `chrono` can hold, in whole seconds.
pub const MAX_SPAN_SECS: i64 = 9_223_372_036_854_775;

/// `millis` as an instant that can be held.
pub open spec fn utc_millis_of(millis: i64) -> Option<i64> {
    if MIN_UTC_MILLIS <= millis <= MAX_UTC_MILLIS {
        Some(millis)
    } else {
        None
    }
}

/// `chrono::DateTime::<chrono::Utc>::from_timestamp_millis` gives the instant so many
/// milliseconds after the epoch, unless it lies outside the years that can be held;
/// `timestamp_millis` gives the milliseconds back.
#[verifier::external_body]
pub(crate) fn utc_millis(millis: i64) -> (r: Option<i64>)
    ensures
        r == utc_millis_of(millis),
{
    chrono::DateTime::<chrono::Utc>::from_timestamp_millis(millis).map(|t| t.timestamp_millis())
}

/// `chrono::Duration::hours` gives a span of so many times 3600 seconds, which `num_seconds`
/// counts. It panics where the span is too long to be held.
#[verifier::external_body]
pub(crate) fn hours(n: i64) -> (secs: i64)
    requires
        -MAX_SPAN_SECS <= n * 3600 <= MAX_SPAN_SECS,
    ensures
        secs == n * 3600,
{
    chrono::Duration::hours(n).num_seconds()
}

/// `chrono::Duration::days` gives a span of so many times 86400 seconds, which `num_seconds`
/// counts. It panics where the span is too long to be held.
#[verifier::external_body]
pub(crate) fn days(n: i64) -> (secs: i64)
    requires
        -MAX_SPAN_SECS <= n * 86_400 <= MAX_SPAN_SECS,
    ensures
        secs == n * 86_400,
{
    chrono::Duration::days(n).num_seconds()
}

}
