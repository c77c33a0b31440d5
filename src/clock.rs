//! The local wall clock.

use crate::calc_time::TimeOfDay;
use chrono::Timelike;
use vstd::prelude::*;

verus! {

/// Relies on std's `SystemTime::now` and chrono's `DateTime::from_timestamp`,
/// `DateTime::with_timezone` (to `Local`), `Timelike::hour` and
/// `Timelike::minute`: the local hour, 0 to 23, and minute, 0 to 59, or
/// `None` where the system clock reads before 1970 or beyond chrono's range.
#[verifier::external_body]
fn local_hour_minute() -> (r: Option<(u32, u32)>)
    ensures
        r matches Some(p) ==> p.0 < 24 && p.1 < 60,
{
    let since = std::time::SystemTime::now().duration_since(std::time::UNIX_EPOCH).ok()?;
    let secs = i64::try_from(since.as_secs()).ok()?;
    let utc = chrono::DateTime::from_timestamp(secs, since.subsec_nanos())?;
    let now = utc.with_timezone(&chrono::Local);
    Some((now.hour(), now.minute()))
}

/// Relies on std's `SystemTime::now` and chrono's `DateTime::from_timestamp`,
/// `DateTime::with_timezone` (to `Local`) and its `%Y-%m-%d` format: today's
/// local date as text, or `None` where the system clock reads before 1970 or
/// beyond chrono's range.
#[verifier::external_body]
fn local_date_text() -> Option<String> {
    let since = std::time::SystemTime::now().duration_since(std::time::UNIX_EPOCH).ok()?;
    let secs = i64::try_from(since.as_secs()).ok()?;
    let utc = chrono::DateTime::from_timestamp(secs, since.subsec_nanos())?;
    Some(utc.with_timezone(&chrono::Local).format("%Y-%m-%d").to_string())
}

/// The local time of day now, where the system clock can be read.
pub fn now() -> (t: Option<TimeOfDay>) {
    match local_hour_minute() {
        Some((h, m)) => Some(TimeOfDay::from_minutes(h * 60 + m)),
        None => None,
    }
}

/// Today's local date, `YYYY-MM-DD`, where the system clock can be read.
pub fn today() -> Option<String> {
    local_date_text()
}

} // verus!
