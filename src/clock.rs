//! Readings of the clock and calendar text for timestamps.
use vstd::prelude::*;

verus! {

#[verifier::external_type_specification]
#[verifier::external_body]
pub struct ExSystemTime(std::time::SystemTime);

#[verifier::external_type_specification]
#[verifier::external_body]
pub struct ExSystemTimeError(std::time::SystemTimeError);

/// Relies on `Duration::as_secs`: the whole seconds of a duration.
pub assume_specification[ core::time::Duration::as_secs ](d: &core::time::Duration) -> u64;

/// Relies on `SystemTime::now`: a reading of the system clock.
#[verifier::external_body]
fn system_now() -> std::time::SystemTime {
    std::time::SystemTime::now()
}

/// Relies on `SystemTime::duration_since` with `UNIX_EPOCH`: the time elapsed
/// since the epoch, or an error when the reading is earlier.
#[verifier::external_body]
fn since_epoch(t: &std::time::SystemTime) -> Result<core::time::Duration, std::time::SystemTimeError> {
    t.duration_since(std::time::UNIX_EPOCH)
}

/// Relies on the `Display` of `SystemTimeError`: its message.
#[verifier::external_body]
fn clock_error_text(e: &std::time::SystemTimeError) -> (r: String) {
    e.to_string()
}

/// Whole seconds since the epoch as an `i64`, held at `i64::MAX` beyond it.
pub open spec fn clamped_seconds(secs: u64) -> int {
    if secs as int > i64::MAX as int {
        i64::MAX as int
    } else {
        secs as int
    }
}

/// The timestamp of a clock reading: the whole seconds elapsed since the
/// epoch (held at `i64::MAX`), or the clock's error text unchanged.
pub fn timestamp_from_elapsed(elapsed: Result<u64, String>) -> (r: Result<i64, String>)
    ensures
        match elapsed {
            Ok(secs) => r matches Ok(t) && t as int == clamped_seconds(secs),
            Err(m) => r matches Err(x) && x@ == m@,
        },
{
    match elapsed {
        Ok(secs) => {
            if secs > i64::MAX as u64 {
                Ok(i64::MAX)
            } else {
                Ok(secs as i64)
            }
        },
        Err(m) => Err(m),
    }
}

/// The current time in whole seconds since the Unix epoch (held at
/// `i64::MAX`), or the clock's error text when it reads before the epoch.
/// Which of the two comes back depends on the clock.
pub fn current_timestamp() -> (r: Result<i64, String>)
    ensures
        r matches Ok(t) ==> t >= 0,
{
    let now = system_now();
    let elapsed = match since_epoch(&now) {
        Ok(d) => Ok(d.as_secs()),
        Err(e) => Err(clock_error_text(&e)),
    };
    timestamp_from_elapsed(elapsed)
}

/// The first second that chrono's calendar holds (January 1, 262143 BCE).
pub const CALENDAR_MIN_SECS: i64 = -8334601228800;

/// The last second that chrono's calendar holds (December 31, 262142 CE, 23:59:59).
pub const CALENDAR_MAX_SECS: i64 = 8210266876799;

/// Whether a Unix timestamp falls within chrono's calendar.
pub open spec fn in_calendar(secs: int) -> bool {
    CALENDAR_MIN_SECS <= secs <= CALENDAR_MAX_SECS
}

/// The calendar text (`YYYY-MM-DD hh:mm:ss UTC`) of a Unix timestamp in seconds.
pub uninterp spec fn utc_datetime_text(secs: int) -> Seq<char>;

/// Relies on chrono's `DateTime::<Utc>::from_timestamp` and its `Display`:
/// `from_timestamp` returns a value exactly for the timestamps whose day lies
/// within `NaiveDate::MIN ..= NaiveDate::MAX`, and the text depends on the
/// timestamp alone.
#[verifier::external_body]
fn datetime_of_timestamp(secs: i64) -> (r: Option<String>)
    ensures
        r is Some <==> in_calendar(secs as int),
        r matches Some(t) ==> t@ == utc_datetime_text(secs as int),
{
    chrono::DateTime::from_timestamp(secs, 0).map(|d| d.to_string())
}

/// The calendar text for a message sent at `timestamp`, when the clock read
/// `now`: the text of `timestamp` where the calendar holds it, else the text
/// of `now`, else the empty text.
pub open spec fn datetime_text_for(timestamp: int, now: Result<i64, String>) -> Seq<char> {
    if in_calendar(timestamp) {
        utc_datetime_text(timestamp)
    } else {
        match now {
            Ok(n) => if in_calendar(n as int) {
                utc_datetime_text(n as int)
            } else {
                Seq::empty()
            },
            Err(_) => Seq::empty(),
        }
    }
}

/// The calendar text of `timestamp`, falling back to the clock reading `now`
/// where the timestamp lies outside the calendar.
pub fn datetime_text_or(timestamp: i64, now: Result<i64, String>) -> (r: String)
    ensures
        r@ == datetime_text_for(timestamp as int, now),
{
    match datetime_of_timestamp(timestamp) {
        Some(t) => t,
        None => match now {
            Ok(n) => match datetime_of_timestamp(n) {
                Some(t) => t,
                None => String::new(),
            },
            Err(_) => String::new(),
        },
    }
}

/// The calendar text of `timestamp`; outside the calendar, that of the
/// current time (empty if the clock reads before the epoch).
pub fn datetime_text(timestamp: i64) -> (r: String)
    ensures
        in_calendar(timestamp as int) ==> r@ == utc_datetime_text(timestamp as int),
        !in_calendar(timestamp as int) ==> r@.len() == 0 || exists|n: int|
            0 <= n <= CALENDAR_MAX_SECS && r@ == utc_datetime_text(n),
{
    if CALENDAR_MIN_SECS <= timestamp && timestamp <= CALENDAR_MAX_SECS {
        match datetime_of_timestamp(timestamp) {
            Some(t) => t,
            None => String::new(),
        }
    } else {
        datetime_text_or(timestamp, current_timestamp())
    }
}

} // verus!
