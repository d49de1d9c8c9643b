//! Reading a point in time from text and writing it out again, with the calendar
//! left to `chrono` and the ISO 8601 grammar to `iso8601`.

use chrono::{DateTime, FixedOffset, NaiveDate, NaiveDateTime, NaiveTime, TimeZone, Weekday};
use num_traits::FromPrimitive;
use vstd::prelude::*;

use crate::wire::Timestamp;

verus! {

/// The date of an ISO 8601 text, in the form in which the text gives it.
#[derive(Clone, Copy, Debug, PartialEq, Eq, Structural)]
pub enum IsoDate {
    /// Year, month and day of the month.
    Ymd { year: i32, month: u32, day: u32 },
    /// Year, week of the year and day of the week.
    Week { year: i32, week: u32, day: u32 },
    /// Year and day of the year.
    Ordinal { year: i32, day: u32 },
}

/// The time of day of an ISO 8601 text, and the offset of its time zone from UTC in
/// hours and minutes, both with the sign of the offset.
#[derive(Clone, Copy, Debug, PartialEq, Eq, Structural)]
pub struct IsoTime {
    pub hour: u32,
    pub minute: u32,
    pub second: u32,
    pub millisecond: u32,
    pub tz_offset_hours: i32,
    pub tz_offset_minutes: i32,
}

/// What an ISO 8601 text spells.
#[derive(Clone, Copy, Debug, PartialEq, Eq, Structural)]
pub struct IsoDateTime {
    pub date: IsoDate,
    pub time: IsoTime,
}

/// A time of day on a local clock that is `offset_secs` seconds east of UTC.
#[derive(Clone, Copy, Debug, PartialEq, Eq, Structural)]
pub struct LocalTime {
    pub hour: u32,
    pub minute: u32,
    pub second: u32,
    pub millisecond: u32,
    pub offset_secs: i32,
}

/// What `iso8601::datetime` reads from a text, if it reads a date and time.
pub uninterp spec fn iso_datetime_of(text: Seq<char>) -> Option<IsoDateTime>;

/// The point in time at which a local clock shows a date of year, month and day
/// and a time of day, as `chrono` computes it; nothing where there is no such date,
/// time or offset.
pub uninterp spec fn utc_of_ymd(year: i32, month: u32, day: u32, time: LocalTime) -> Option<
    Timestamp,
>;

/// The same for a date of year, ISO week and day of the week, the days counted from
/// 0 for Monday.
pub uninterp spec fn utc_of_week(year: i32, week: u32, day: u32, time: LocalTime) -> Option<
    Timestamp,
>;

/// The same for a date of year and day of the year.
pub uninterp spec fn utc_of_ordinal(year: i32, day: u32, time: LocalTime) -> Option<Timestamp>;

/// The point in time that `chrono::DateTime::parse_from_rfc3339` reads from a text.
pub uninterp spec fn utc_of_rfc3339(text: Seq<char>) -> Option<Timestamp>;

/// The point in time that `chrono::DateTime::parse_from_rfc2822` reads from a text.
pub uninterp spec fn utc_of_rfc2822(text: Seq<char>) -> Option<Timestamp>;

/// The text that `chrono::DateTime::to_rfc3339` writes for a point in time in UTC;
/// nothing for a point in time that `chrono` cannot hold.
pub uninterp spec fn rfc3339_of(t: Timestamp) -> Option<Seq<char>>;

#[verifier::external_type_specification]
#[verifier::external_body]
pub struct ExNaiveDate(NaiveDate);

#[verifier::external_type_specification]
#[verifier::external_body]
pub struct ExIsoDate(iso8601::Date);

/// Moves an `iso8601::Date` into an [`IsoDate`], variant by variant.
#[verifier::external_body]
fn date_of(date: iso8601::Date) -> IsoDate {
    match date {
        iso8601::Date::YMD { year, month, day } => IsoDate::Ymd { year, month, day },
        iso8601::Date::Week { year, ww, d } => IsoDate::Week { year, week: ww, day: d },
        iso8601::Date::Ordinal { year, ddd } => IsoDate::Ordinal { year, day: ddd },
    }
}

/// `iso8601::datetime`: the date, time of day and offset that the start of the text
/// spells, or `None` where it spells none.
#[verifier::external_body]
fn iso8601_datetime(text: &str) -> (r: Option<IsoDateTime>)
    ensures
        r == iso_datetime_of(text@),
{
    let parsed = iso8601::datetime(text).ok()?;
    let time = IsoTime {
        hour: parsed.time.hour,
        minute: parsed.time.minute,
        second: parsed.time.second,
        millisecond: parsed.time.millisecond,
        tz_offset_hours: parsed.time.tz_offset_hours,
        tz_offset_minutes: parsed.time.tz_offset_minutes,
    };
    Some(IsoDateTime { date: date_of(parsed.date), time })
}

/// `chrono::TimeZone::from_local_datetime` for a fixed offset: the point in time at
/// which a clock `time.offset_secs` east of UTC shows `date` and `time`. `None`
/// where `NaiveTime::from_hms_milli_opt` or `FixedOffset::east_opt` refuses its
/// arguments, or the point in time is outside what `chrono` can hold.
#[verifier::external_body]
fn local_to_utc(date: NaiveDate, time: LocalTime) -> Option<Timestamp> {
    let clock = NaiveTime::from_hms_milli_opt(
        time.hour,
        time.minute,
        time.second,
        time.millisecond,
    )?;
    let zone = FixedOffset::east_opt(time.offset_secs)?;
    let utc = zone.from_local_datetime(&NaiveDateTime::new(date, clock)).earliest()?;
    Some(Timestamp::new(utc.timestamp(), utc.timestamp_subsec_nanos()))
}

/// `chrono::NaiveDate::from_ymd_opt`, then [`local_to_utc`].
#[verifier::external_body]
fn chrono_utc_of_ymd(year: i32, month: u32, day: u32, time: LocalTime) -> (r: Option<Timestamp>)
    ensures
        r == utc_of_ymd(year, month, day, time),
{
    local_to_utc(NaiveDate::from_ymd_opt(year, month, day)?, time)
}

/// `chrono::NaiveDate::from_isoywd_opt` with the weekday that
/// `num_traits::FromPrimitive::from_i64` gives for `day`, then [`local_to_utc`].
#[verifier::external_body]
fn chrono_utc_of_week(year: i32, week: u32, day: u32, time: LocalTime) -> (r: Option<Timestamp>)
    ensures
        r == utc_of_week(year, week, day, time),
{
    let weekday = Weekday::from_i64(day as i64)?;
    local_to_utc(NaiveDate::from_isoywd_opt(year, week, weekday)?, time)
}

/// `chrono::NaiveDate::from_yo_opt`, then [`local_to_utc`].
#[verifier::external_body]
fn chrono_utc_of_ordinal(year: i32, day: u32, time: LocalTime) -> (r: Option<Timestamp>)
    ensures
        r == utc_of_ordinal(year, day, time),
{
    local_to_utc(NaiveDate::from_yo_opt(year, day)?, time)
}

/// `chrono::DateTime::parse_from_rfc3339`: the point in time that the text spells,
/// in seconds and nanoseconds by `DateTime::timestamp` and
/// `DateTime::timestamp_subsec_nanos`, or `None` where it spells none.
#[verifier::external_body]
fn chrono_rfc3339(text: &str) -> (r: Option<Timestamp>)
    ensures
        r == utc_of_rfc3339(text@),
{
    let utc = DateTime::parse_from_rfc3339(text).ok()?;
    Some(Timestamp::new(utc.timestamp(), utc.timestamp_subsec_nanos()))
}

/// `chrono::DateTime::parse_from_rfc2822`: the point in time that the text spells,
/// in seconds and nanoseconds by `DateTime::timestamp` and
/// `DateTime::timestamp_subsec_nanos`, or `None` where it spells none.
#[verifier::external_body]
fn chrono_rfc2822(text: &str) -> (r: Option<Timestamp>)
    ensures
        r == utc_of_rfc2822(text@),
{
    let utc = DateTime::parse_from_rfc2822(text).ok()?;
    Some(Timestamp::new(utc.timestamp(), utc.timestamp_subsec_nanos()))
}

/// `chrono::DateTime::to_rfc3339` on the UTC date and time that
/// `DateTime::from_timestamp` makes of the seconds and nanoseconds. `None` where the
/// nanoseconds are negative or `from_timestamp` refuses its arguments.
#[verifier::external_body]
fn chrono_to_rfc3339(t: Timestamp) -> (r: Option<String>)
    ensures
        crate::text::opt_text(r) == rfc3339_of(t),
{
    let nanos = u32::try_from(t.nanos).ok()?;
    DateTime::from_timestamp(t.seconds, nanos).map(|utc| utc.to_rfc3339())
}

/// The seconds that a time zone is east of UTC: the hours and the minutes of its
/// offset, each with its sign.
pub open spec fn offset_seconds(time: IsoTime) -> int {
    time.tz_offset_hours * 3600 + time.tz_offset_minutes * 60
}

/// The point in time that an ISO 8601 date and time stands for. There is none where
/// the offset does not fit 32 bits, nor where `chrono` knows no such date, time of
/// day or offset.
pub open spec fn utc_of_iso(dt: IsoDateTime) -> Option<Timestamp> {
    let offset = offset_seconds(dt.time);
    if !(i32::MIN <= offset <= i32::MAX) {
        None
    } else {
        let time = LocalTime {
            hour: dt.time.hour,
            minute: dt.time.minute,
            second: dt.time.second,
            millisecond: dt.time.millisecond,
            offset_secs: offset as i32,
        };
        match dt.date {
            IsoDate::Ymd { year, month, day } => utc_of_ymd(year, month, day, time),
            IsoDate::Week { year, week, day } => utc_of_week(year, week, day, time),
            IsoDate::Ordinal { year, day } => utc_of_ordinal(year, day, time),
        }
    }
}

/// The point in time that a text stands for: read as ISO 8601 first, then as
/// RFC 3339, then as RFC 2822, whichever gives one first.
pub open spec fn timestamp_of_text(text: Seq<char>) -> Option<Timestamp> {
    let iso = match iso_datetime_of(text) {
        Some(dt) => utc_of_iso(dt),
        None => None,
    };
    if iso is Some {
        iso
    } else if utc_of_rfc3339(text) is Some {
        utc_of_rfc3339(text)
    } else {
        utc_of_rfc2822(text)
    }
}

/// The point in time that an ISO 8601 date and time stands for: see [`utc_of_iso`].
pub fn iso_to_utc(dt: IsoDateTime) -> (r: Option<Timestamp>)
    ensures
        r == utc_of_iso(dt),
{
    let offset: i64 = (dt.time.tz_offset_hours as i64) * 3600 + (dt.time.tz_offset_minutes as i64)
        * 60;
    if offset < -0x8000_0000 || offset > 0x7fff_ffff {
        return None;
    }
    let time = LocalTime {
        hour: dt.time.hour,
        minute: dt.time.minute,
        second: dt.time.second,
        millisecond: dt.time.millisecond,
        offset_secs: offset as i32,
    };
    match dt.date {
        IsoDate::Ymd { year, month, day } => chrono_utc_of_ymd(year, month, day, time),
        IsoDate::Week { year, week, day } => chrono_utc_of_week(year, week, day, time),
        IsoDate::Ordinal { year, day } => chrono_utc_of_ordinal(year, day, time),
    }
}

/// Reads a point in time from a text: see [`timestamp_of_text`].
pub fn parse_timestamp(ts: &str) -> (r: Option<Timestamp>)
    ensures
        r == timestamp_of_text(ts@),
{
    let iso = match iso8601_datetime(ts) {
        Some(dt) => iso_to_utc(dt),
        None => None,
    };
    if iso.is_some() {
        return iso;
    }
    let rfc3339 = chrono_rfc3339(ts);
    if rfc3339.is_some() {
        return rfc3339;
    }
    chrono_rfc2822(ts)
}

/// Writes a point in time in RFC 3339, in UTC. `None` for a point in time that the
/// calendar cannot hold.
pub fn to_rfc3339(t: Timestamp) -> (r: Option<String>)
    ensures
        crate::text::opt_text(r) == rfc3339_of(t),
{
    chrono_to_rfc3339(t)
}

} // verus!
