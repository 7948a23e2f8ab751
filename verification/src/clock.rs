//! The clock and the calendar: what the journal asks of chrono.

use crate::task::timestamp_in_range;
use vstd::prelude::*;

verus! {

/// Whether `offset` is a difference between a zone's time and UTC that the
/// calendar takes, in seconds: less than a day, either way.
pub open spec fn offset_in_range(offset: int) -> bool {
    -86_400 < offset < 86_400
}

/// What chrono writes for the minute in which the second `seconds` falls, in
/// a zone that is `offset` seconds ahead of UTC: year, month and day, a
/// space, hour and minute.
pub uninterp spec fn calendar_minute(seconds: int, offset: int) -> Seq<char>;

/// The present moment, in whole seconds since the Unix epoch; negative where
/// the machine's clock reads a time before it.
///
/// Calls `std::time::SystemTime::now`, chrono's conversion of a `SystemTime`
/// to a `DateTime<Utc>`, and `DateTime::timestamp`. Trusted: the conversion
/// only yields instants that the calendar can express, so the seconds lie
/// within its range. Which second comes back is the clock's to say.
#[verifier::external_body]
pub(crate) fn current_timestamp() -> (seconds: i64)
    ensures
        timestamp_in_range(seconds as int),
{
    chrono::DateTime::<chrono::Utc>::from(std::time::SystemTime::now()).timestamp()
}

/// How many seconds the machine's time zone is ahead of UTC at the second
/// `seconds`.
///
/// Calls `chrono::DateTime::from_timestamp`, `with_timezone` for
/// `chrono::Local`, `offset` and `FixedOffset::local_minus_utc`. Trusted: a
/// `FixedOffset` only holds differences of less than a day. Which offset
/// comes back depends on the zone that the machine is set to. The calendar
/// has no date for a second outside its range, so such a second is not
/// accepted.
#[verifier::external_body]
pub(crate) fn local_offset(seconds: i64) -> (offset: i32)
    requires
        timestamp_in_range(seconds as int),
    ensures
        offset_in_range(offset as int),
{
    match chrono::DateTime::from_timestamp(seconds, 0) {
        Some(instant) => instant.with_timezone(&chrono::Local).offset().local_minus_utc(),
        None => 0,
    }
}

/// Writes the minute in which the second `seconds` falls, in a zone that is
/// `offset` seconds ahead of UTC.
///
/// Calls `chrono::DateTime::from_timestamp`, `FixedOffset::east_opt`,
/// `with_timezone` and `format` with the pattern `%F %H:%M`. Trusted: the
/// text depends on the second and the offset alone, and is what
/// `calendar_minute` names. A second outside the calendar's range or an
/// offset of a day or more is not accepted: chrono has no value for them.
#[verifier::external_body]
pub(crate) fn minute_at(seconds: i64, offset: i32) -> (stamp: String)
    requires
        timestamp_in_range(seconds as int),
        offset_in_range(offset as int),
    ensures
        stamp@ == calendar_minute(seconds as int, offset as int),
{
    match (chrono::DateTime::from_timestamp(seconds, 0), chrono::FixedOffset::east_opt(offset)) {
        (Some(instant), Some(zone)) => instant.with_timezone(&zone).format("%F %H:%M").to_string(),
        _ => String::new(),
    }
}

} // verus!
