//! Calendar fields and texts of points in time.
use crate::text::same_text;
use chrono::{Datelike, SecondsFormat, TimeZone, Timelike, Utc};
use vstd::prelude::*;

verus! {

/// The first year of `chrono::NaiveDate`.
pub const FIRST_YEAR: i32 = -262_143;

/// The last year of `chrono::NaiveDate`.
pub const LAST_YEAR: i32 = 262_142;

/// What `chrono` gives as the fields of a point in time in UTC: the year, the
/// month and the day from 1 on, the day of the year from 1 on, the days since
/// Sunday, the hour and the minute. None if the time is out of its range.
pub uninterp spec fn utc_fields(ms: i64) -> Option<(i32, u32, u32, u32, u32, u32, u32)>;

/// What `chrono` gives as the start of a month, in seconds since the epoch. None
/// if it has no such month.
pub uninterp spec fn month_start(year: i32, month: u32) -> Option<i64>;

/// What `chrono` writes for a point in time in UTC, to the second.
pub uninterp spec fn utc_text(ms: i64) -> Option<Seq<char>>;

/// What `chrono` writes for a point in time in UTC, to the microsecond.
pub uninterp spec fn utc_micros_text(us: i64) -> Option<Seq<char>>;

/// What is known of the fields of a point in time: the year is one of
/// `chrono::NaiveDate`, the month and the days lie in their ranges, and the day of
/// the week, the hour and the minute follow from the milliseconds since a Thursday
/// at midnight.
pub open spec fn fields_fit(f: (i32, u32, u32, u32, u32, u32, u32), ms: int) -> bool {
    &&& FIRST_YEAR <= f.0 <= LAST_YEAR
    &&& 1 <= f.1 <= 12
    &&& 1 <= f.2 <= 31
    &&& 1 <= f.3 <= 366
    &&& f.4 == (ms / 86_400_000 + 4) % 7
    &&& f.5 == ms / 3_600_000 % 24
    &&& f.6 == ms / 60_000 % 60
}

/// `chrono::TimeZone::timestamp_millis_opt` on `chrono::Utc`, and the fields of
/// the result by `Datelike` and `Timelike`. They depend on the time alone; which
/// date it is is not stated beyond the ranges of its parts.
#[verifier::external_body]
fn fields_of(ms: i64) -> (fields: Option<(i32, u32, u32, u32, u32, u32, u32)>)
    ensures
        fields == utc_fields(ms),
        fields matches Some(f) ==> fields_fit(f, ms as int),
{
    let at = Utc.timestamp_millis_opt(ms).single()?;
    let weekday = at.weekday().num_days_from_sunday();
    Some((at.year(), at.month(), at.day(), at.ordinal(), weekday, at.hour(), at.minute()))
}

/// `chrono::TimeZone::with_ymd_and_hms` on `chrono::Utc` at midnight of the first
/// day of a month, and `chrono::DateTime::timestamp` of the result. It is there for
/// every month of every year of `chrono::NaiveDate` and is midnight of some day. It
/// depends on the year and the month alone; which day it is is not stated.
#[verifier::external_body]
fn start_of_month(year: i32, month: u32) -> (start: Option<i64>)
    ensures
        start == month_start(year, month),
        start is Some == (FIRST_YEAR <= year <= LAST_YEAR && 1 <= month <= 12),
        start matches Some(s) ==> s % 86_400 == 0,
{
    Some(Utc.with_ymd_and_hms(year, month, 1, 0, 0, 0).single()?.timestamp())
}

/// The characters of an optional text.
pub open spec fn optional(text: Option<String>) -> Option<Seq<char>> {
    match text {
        Some(t) => Some(t@),
        None => None,
    }
}

/// `chrono::TimeZone::timestamp_millis_opt` on `chrono::Utc`, and
/// `chrono::DateTime::format` with `%Y-%m-%dT%H:%M:%SZ`. The text depends on the
/// time alone; which it is is not stated.
#[verifier::external_body]
pub(crate) fn second_text(ms: i64) -> (text: Option<String>)
    ensures
        optional(text) == utc_text(ms),
{
    let at = Utc.timestamp_millis_opt(ms).single()?;
    Some(at.format("%Y-%m-%dT%H:%M:%SZ").to_string())
}

/// `chrono::TimeZone::timestamp_micros` on `chrono::Utc`, and
/// `chrono::DateTime::to_rfc3339_opts` to the microsecond with a `Z`. The text
/// depends on the time alone; which it is is not stated.
#[verifier::external_body]
pub(crate) fn microsecond_text(us: i64) -> (text: Option<String>)
    ensures
        optional(text) == utc_micros_text(us),
{
    let at = Utc.timestamp_micros(us).single()?;
    Some(at.to_rfc3339_opts(SecondsFormat::Micros, true))
}

/// Why a calendar field has no value.
#[derive(Clone, Copy, Debug, PartialEq, Eq, Structural)]
pub enum CalendarError {
    Evaluation,
    NextMonth,
    ThisMonth,
    UnknownField,
}

/// The month after a month.
pub open spec fn following(year: int, month: int) -> (int, int) {
    if month == 12 {
        (year + 1, 1)
    } else {
        (year, month + 1)
    }
}

/// The days between the starts of two months.
pub open spec fn days_between(this: int, next: int) -> int {
    if next < this {
        -((this - next) / 86_400)
    } else {
        (next - this) / 86_400
    }
}

/// A calendar field of a point in time, from its fields and the starts of its
/// month and of the next one.
pub open spec fn field_value(
    name: Seq<char>,
    fields: Option<(i32, u32, u32, u32, u32, u32, u32)>,
    this: Option<i64>,
    next: Option<i64>,
) -> Result<int, CalendarError> {
    match fields {
        None => Err(CalendarError::Evaluation),
        Some(f) => if name == "minute"@ {
            Ok(f.6 as int)
        } else if name == "hour"@ {
            Ok(f.5 as int)
        } else if name == "day_of_week"@ {
            Ok(f.4 as int)
        } else if name == "day_of_month"@ {
            Ok(f.2 as int)
        } else if name == "day_of_year"@ {
            Ok(f.3 as int)
        } else if name == "days_in_month"@ {
            match (next, this) {
                (None, _) => Err(CalendarError::NextMonth),
                (_, None) => Err(CalendarError::ThisMonth),
                (Some(n), Some(t)) => Ok(days_between(t as int, n as int)),
            }
        } else if name == "month"@ {
            Ok(f.1 as int)
        } else if name == "year"@ {
            Ok(f.0 as int)
        } else {
            Err(CalendarError::UnknownField)
        },
    }
}

/// A calendar field, from the fields of a point in time and the starts of its
/// month and of the next one.
pub fn calendar_field(
    name: &str,
    fields: Option<(i32, u32, u32, u32, u32, u32, u32)>,
    this: Option<i64>,
    next: Option<i64>,
) -> (value: Result<i64, CalendarError>)
    ensures
        match value {
            Ok(v) => field_value(name@, fields, this, next) == Ok::<int, CalendarError>(v as int),
            Err(e) => field_value(name@, fields, this, next) == Err::<int, CalendarError>(e),
        },
{
    let f = match fields {
        None => return Err(CalendarError::Evaluation),
        Some(f) => f,
    };
    if same_text(name, "minute") {
        Ok(f.6 as i64)
    } else if same_text(name, "hour") {
        Ok(f.5 as i64)
    } else if same_text(name, "day_of_week") {
        Ok(f.4 as i64)
    } else if same_text(name, "day_of_month") {
        Ok(f.2 as i64)
    } else if same_text(name, "day_of_year") {
        Ok(f.3 as i64)
    } else if same_text(name, "days_in_month") {
        let n = match next {
            None => return Err(CalendarError::NextMonth),
            Some(n) => n,
        };
        let t = match this {
            None => return Err(CalendarError::ThisMonth),
            Some(t) => t,
        };
        let wide: i128 = if n < t {
            -((t as i128 - n as i128) / 86_400)
        } else {
            (n as i128 - t as i128) / 86_400
        };
        Ok(wide as i64)
    } else if same_text(name, "month") {
        Ok(f.1 as i64)
    } else if same_text(name, "year") {
        Ok(f.0 as i64)
    } else {
        Err(CalendarError::UnknownField)
    }
}

/// The start of the month of a point in time.
pub open spec fn this_start(ms: i64) -> Option<i64> {
    match utc_fields(ms) {
        Some(f) => month_start(f.0, f.1),
        None => None,
    }
}

/// The start of the month after a point in time.
pub open spec fn next_start(ms: i64) -> Option<i64> {
    match utc_fields(ms) {
        Some(f) => month_start(
            following(f.0 as int, f.1 as int).0 as i32,
            following(f.0 as int, f.1 as int).1 as u32,
        ),
        None => None,
    }
}

/// A calendar field of a point in time.
pub open spec fn calendar_of(name: Seq<char>, ms: i64) -> Result<int, CalendarError> {
    field_value(name, utc_fields(ms), this_start(ms), next_start(ms))
}

/// A calendar field of a point in time.
pub fn calendar_value(name: &str, evaluation_ms: i64) -> (value: Result<i64, CalendarError>)
    ensures
        match value {
            Ok(v) => calendar_of(name@, evaluation_ms) == Ok::<int, CalendarError>(v as int),
            Err(e) => calendar_of(name@, evaluation_ms) == Err::<int, CalendarError>(e),
        },
        value matches Ok(v) ==> {
            &&& name@ == "minute"@ ==> v == evaluation_ms as int / 60_000 % 60
            &&& name@ == "hour"@ ==> v == evaluation_ms as int / 3_600_000 % 24
            &&& name@ == "day_of_week"@ ==> v == (evaluation_ms as int / 86_400_000 + 4) % 7
            &&& name@ == "month"@ ==> 1 <= v <= 12
        },
        value matches Err(e) ==> {
            &&& e != CalendarError::ThisMonth
            &&& e == CalendarError::NextMonth ==> (utc_fields(evaluation_ms) matches Some(f)
                && f.0 == LAST_YEAR && f.1 == 12)
        },
{
    proof {
        reveal_strlit("minute");
        reveal_strlit("hour");
        reveal_strlit("day_of_week");
        reveal_strlit("day_of_month");
        reveal_strlit("day_of_year");
        reveal_strlit("days_in_month");
        reveal_strlit("month");
        assert("minute"@.len() == 6 && "hour"@.len() == 4 && "day_of_week"@.len() == 11);
        assert("day_of_month"@.len() == 12 && "day_of_year"@.len() == 11);
        assert("days_in_month"@.len() == 13 && "month"@.len() == 5);
    }
    let fields = fields_of(evaluation_ms);
    match fields {
        None => Err(CalendarError::Evaluation),
        Some(f) => {
            let (year, month): (i32, u32) = if f.1 == 12 {
                (f.0 + 1, 1)
            } else {
                (f.0, f.1 + 1)
            };
            let next = start_of_month(year, month);
            let this = start_of_month(f.0, f.1);
            calendar_field(name, fields, this, next)
        },
    }
}

} // verus!
