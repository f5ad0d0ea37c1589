//! The wall clock, and how an instant is written as a time stamp.
//!
//! A stamp is an RFC 3339 text in UTC, such as `2024-05-01T12:00:00+00:00`.
//! RFC 3339 writes years with four digits, and the clock is read as the time
//! since 1970, so the stamps run from the start of 1970 to the end of 9999.
//! A clock that reads outside that span is taken for its nearer end.

use vstd::prelude::*;

verus! {

/// The last second that a stamp can name: 9999-12-31T23:59:59, counted from 1970.
pub const LAST_SECOND: u64 = 253_402_300_799;

/// The largest number of nanoseconds within a second.
pub const LAST_NANO: u32 = 999_999_999;

/// What every stamp has: date and time take at least nineteen characters,
/// and the offset from UTC, written `+00:00`, ends it.
pub open spec fn is_utc_stamp(stamp: Seq<char>) -> bool {
    &&& stamp.len() >= 25
    &&& stamp.subrange(stamp.len() - 6, stamp.len() as int) == "+00:00"@
}

/// The RFC 3339 text, in UTC, of the instant `secs` seconds and `nanos`
/// nanoseconds after the start of 1970.
pub uninterp spec fn rfc3339_utc(secs: int, nanos: int) -> Seq<char>;

/// `stamp` is the stamp of some instant from 1970 to the end of 9999.
pub open spec fn names_an_instant(stamp: Seq<char>) -> bool {
    exists|secs: int, nanos: int|
        0 <= secs <= LAST_SECOND && 0 <= nanos <= LAST_NANO && stamp == #[trigger] rfc3339_utc(
            secs,
            nanos,
        )
}

/// `secs` kept within what a stamp can name.
pub open spec fn clamped_secs(secs: u64) -> int {
    if secs <= LAST_SECOND {
        secs as int
    } else {
        LAST_SECOND as int
    }
}

/// `nanos` kept within a second.
pub open spec fn clamped_nanos(nanos: u32) -> int {
    if nanos <= LAST_NANO {
        nanos as int
    } else {
        LAST_NANO as int
    }
}

/// The time since the start of 1970 by the machine's clock, as whole seconds
/// and nanoseconds, or `None` where the clock reads earlier than that.
///
/// Calls `std::time::SystemTime::elapsed` on `UNIX_EPOCH`, which reads the
/// clock and does not panic. What it gives depends on the clock, so nothing
/// is claimed of it.
#[verifier::external_body]
fn unix_time() -> (elapsed: Option<(u64, u32)>) {
    match std::time::UNIX_EPOCH.elapsed() {
        Ok(elapsed) => Some((elapsed.as_secs(), elapsed.subsec_nanos())),
        Err(_) => None,
    }
}

/// The stamp of the instant `secs` seconds and `nanos` nanoseconds after the
/// start of 1970.
///
/// Calls `chrono::DateTime::from_timestamp` and formats what it returns with
/// `chrono::DateTime::to_rfc3339`. For an instant from 1970 to the end of
/// 9999 with less than a second of nanoseconds the first returns a value, and
/// the second writes a four-digit year, date and time, a fraction where the
/// nanoseconds are not zero, and `+00:00`. The text depends on the two
/// numbers alone; beyond its length and its ending it is only named.
#[verifier::external_body]
fn rfc3339(secs: i64, nanos: u32) -> (stamp: String)
    requires
        0 <= secs <= LAST_SECOND,
        nanos <= LAST_NANO,
    ensures
        stamp@ == rfc3339_utc(secs as int, nanos as int),
        is_utc_stamp(stamp@),
{
    chrono::DateTime::from_timestamp(secs, nanos).unwrap().to_rfc3339()
}

/// The stamp of the instant `secs` seconds and `nanos` nanoseconds after the
/// start of 1970. Seconds beyond the year 9999 count as its last second,
/// nanoseconds beyond a second as its last nanosecond.
pub fn timestamp_at(secs: u64, nanos: u32) -> (stamp: String)
    ensures
        stamp@ == rfc3339_utc(clamped_secs(secs), clamped_nanos(nanos)),
        is_utc_stamp(stamp@),
{
    let secs: u64 = if secs <= LAST_SECOND {
        secs
    } else {
        LAST_SECOND
    };
    let nanos: u32 = if nanos <= LAST_NANO {
        nanos
    } else {
        LAST_NANO
    };
    rfc3339(secs as i64, nanos)
}

/// The stamp of the current time by the machine's clock. A clock that reads
/// before 1970 is taken for the start of 1970.
pub fn current_timestamp() -> (stamp: String)
    ensures
        names_an_instant(stamp@),
        is_utc_stamp(stamp@),
{
    match unix_time() {
        Some((secs, nanos)) => timestamp_at(secs, nanos),
        None => timestamp_at(0, 0),
    }
}

} // verus!
