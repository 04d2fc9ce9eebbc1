//! The clock and the dates of the `chrono` crate.

use chrono::{DateTime, Utc};
use vstd::prelude::*;

verus! {

/// The latest instant the clock can show, in milliseconds since the Unix
/// epoch: the end of the year 262142.
pub const MAX_CLOCK_MILLIS: i64 = 8_210_266_876_799_999;

/// The latest instant that has an RFC 2822 date, in milliseconds since the
/// Unix epoch: the end of the year 9999.
pub const MAX_RFC2822_MILLIS: i64 = 253_402_300_799_999;

/// Whether `t` is a number of milliseconds that the clock can show.
pub open spec fn is_clock_reading(t: int) -> bool {
    0 <= t <= MAX_CLOCK_MILLIS
}

/// The RFC 2822 date of the instant `millis` milliseconds after the Unix
/// epoch, in UTC.
pub uninterp spec fn rfc2822_text(millis: int) -> Seq<char>;

/// Calls `Utc::now` and reads it with `DateTime::timestamp_millis`.
/// `Utc::now` returns no time before the Unix epoch, and none after the last
/// instant a `DateTime` can hold: it panics where the system clock shows
/// such a time.
#[verifier::external_body]
pub(crate) fn now_millis() -> (now: i64)
    ensures
        is_clock_reading(now as int),
{
    Utc::now().timestamp_millis()
}

/// Calls `DateTime::from_timestamp_millis` and `DateTime::to_rfc2822`. The
/// text depends on the instant alone. The bounds keep the year within the
/// four digits that the format has.
#[verifier::external_body]
pub(crate) fn rfc2822(millis: i64) -> (text: String)
    requires
        0 <= millis <= MAX_RFC2822_MILLIS,
    ensures
        text@ == rfc2822_text(millis as int),
{
    match DateTime::<Utc>::from_timestamp_millis(millis) {
        Some(instant) => instant.to_rfc2822(),
        None => String::new(),
    }
}

} // verus!
