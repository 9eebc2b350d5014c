//! Civil time: the weekday and hour that an instant has on the wall clocks of
//! Copenhagen, which is where the schedule is read.

use chrono::{Datelike, Timelike};
use vstd::prelude::*;

use crate::schedule::{LocalDateTime, ScheduleDecision, SchedulePolicy, Weekday};

verus! {

/// The first second of the year 1, in seconds since the Unix epoch.
pub const FIRST_COMMON_SECOND: i64 = -62_135_596_800;

/// The last second of the year 9999, in seconds since the Unix epoch.
pub const LAST_COMMON_SECOND: i64 = 253_402_300_799;

/// The wall clock of Europe/Copenhagen at `unix_seconds` seconds after the Unix
/// epoch, as `(days after Monday, hour of the day)`; `None` for an instant that
/// the calendar cannot represent. The offsets from UTC over the years are the
/// time zone database's and are not restated here.
pub uninterp spec fn copenhagen_clock(unix_seconds: int) -> Option<(int, int)>;

/// The reading of [`copenhagen_clock`] turned into the schedule's own terms.
pub open spec fn local_reading(unix_seconds: int) -> Option<LocalDateTime> {
    match copenhagen_clock(unix_seconds) {
        Some((days, hour)) => match Weekday::after_monday(days) {
            Some(weekday) => Some(LocalDateTime { weekday, hour: hour as u8 }),
            None => None,
        },
        None => None,
    }
}

/// Trusted: `chrono::DateTime::with_timezone` with `chrono_tz::Europe::Copenhagen`.
///
/// The timestamp is first made a UTC date-time by `DateTime::from_timestamp`,
/// which gives `None` outside chrono's range of years; that range reaches far
/// beyond the years 1 to 9999, for which a reading is promised here. The
/// result is the local weekday as `Weekday::num_days_from_monday` counts it
/// (0 to 6) and the local `hour()` (0 to 23). That this pair is
/// [`copenhagen_clock`] of the timestamp is the claim that nothing here
/// proves: it says no more than that the same instant always reads the same.
#[verifier::external_body]
fn read_copenhagen_clock(unix_seconds: i64) -> (reading: Option<(u8, u8)>)
    ensures
        reading matches Some((days, hour)) ==> days < 7 && hour < 24,
        FIRST_COMMON_SECOND <= unix_seconds <= LAST_COMMON_SECOND ==> reading.is_some(),
        match reading {
            Some((days, hour)) => copenhagen_clock(unix_seconds as int) == Some(
                (days as int, hour as int),
            ),
            None => copenhagen_clock(unix_seconds as int).is_none(),
        },
{
    let utc = chrono::DateTime::from_timestamp(unix_seconds, 0)?;
    let local = utc.with_timezone(&chrono_tz::Europe::Copenhagen);
    Some((local.weekday().num_days_from_monday() as u8, local.hour() as u8))
}

/// The Copenhagen weekday and hour of an instant given in seconds since the
/// Unix epoch, or `None` when the calendar cannot represent the instant. Every
/// instant of the years 1 to 9999 has a reading.
pub fn local_date_time(unix_seconds: i64) -> (now: Option<LocalDateTime>)
    ensures
        now == local_reading(unix_seconds as int),
        now.is_some() <==> copenhagen_clock(unix_seconds as int).is_some(),
        FIRST_COMMON_SECOND <= unix_seconds <= LAST_COMMON_SECOND ==> now.is_some(),
        now matches Some(local) ==> local.hour < 24,
{
    match read_copenhagen_clock(unix_seconds) {
        Some((days, hour)) => match Weekday::from_days_after_monday(days) {
            Some(weekday) => Some(LocalDateTime { weekday, hour }),
            None => None,
        },
        None => None,
    }
}

impl SchedulePolicy {
    /// Decides for an instant given in seconds since the Unix epoch: the
    /// instant is read on the Copenhagen wall clock and the rule applied to
    /// that reading. `None` exactly when the instant has no such reading,
    /// which never happens within the years 1 to 9999.
    pub fn decide_at(&self, unix_seconds: i64) -> (decision: Option<ScheduleDecision>)
        ensures
            decision == (match local_reading(unix_seconds as int) {
                Some(now) => Some(self.decision(now)),
                None => None,
            }),
            decision.is_some() <==> copenhagen_clock(unix_seconds as int).is_some(),
            FIRST_COMMON_SECOND <= unix_seconds <= LAST_COMMON_SECOND ==> decision.is_some(),
    {
        match local_date_time(unix_seconds) {
            Some(now) => Some(self.decide(now)),
            None => None,
        }
    }
}

} // verus!
