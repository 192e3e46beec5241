//! Clock access and timestamp display.
//!
//! Session branch names and snapshot-commit messages are derived from the
//! wall clock; the clock reads are trusted and promise nothing, so every
//! caller is verified for whatever instant came back.

use vstd::prelude::*;

verus! {

/// Relies on chrono's conversion from the system clock (`From<SystemTime>`
/// for `DateTime<Utc>`): the current wall-clock time as unix seconds.
/// Unlike `chrono::Utc::now`, the conversion handles a clock set before the
/// epoch by returning a negative timestamp instead of panicking. Nothing
/// can be promised of the value itself.
#[verifier::external_body]
pub fn now_unix_seconds() -> (r: i64)
{
    chrono::DateTime::<chrono::Utc>::from(std::time::SystemTime::now()).timestamp()
}

/// Relies on chrono's conversion from the system clock (`From<SystemTime>`
/// for `DateTime<Utc>`): the current wall-clock time in unix milliseconds;
/// a pre-epoch clock comes back negative instead of panicking. Nothing can
/// be promised of the value itself.
#[verifier::external_body]
pub fn now_unix_millis() -> (r: i64)
{
    chrono::DateTime::<chrono::Utc>::from(std::time::SystemTime::now()).timestamp_millis()
}

/// The `YYYY-MM-DD hh:mm:ss` display of a unix timestamp, a function of the
/// timestamp alone.
pub uninterp spec fn utc_display_of(secs: int) -> Seq<char>;

/// Relies on chrono::DateTime::from_timestamp and format: the display
/// depends on the timestamp alone, and every second from 1970 up to the year
/// 9999 is within the range that from_timestamp documents as accepted.
#[verifier::external_body]
pub fn format_utc_seconds(secs: i64) -> (r: Option<String>)
    ensures
        r matches Some(s) ==> s@ == utc_display_of(secs as int),
        0 <= secs <= 253402300799 ==> r is Some,
{
    match chrono::DateTime::from_timestamp(secs, 0) {
        Some(d) => Some(d.format("%Y-%m-%d %H:%M:%S").to_string()),
        None => None,
    }
}

} // verus!
