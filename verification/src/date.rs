//! Validation and conversion of the canonical datetime format.
//!
//! A textual datetime is accepted exactly when it is sixteen characters of
//! the shape `YYYY-MM-DD HH:MM` naming a real proleptic-Gregorian calendar
//! date and a time of day. A valid datetime converts to epoch milliseconds;
//! a malformed one is rejected, never silently turned into a default time.

use vstd::prelude::*;
use vstd::string::StrSliceExecFns;

use crate::error::GrafanaCliError;

verus! {

/// The canonical textual datetime format accepted by this client.
pub const DATETIME_FORMAT: &'static str = "%Y-%m-%d %H:%M";

/// Whether `c` is a decimal digit.
pub open spec fn is_dec_digit(c: char) -> bool {
    48 <= c as u32 <= 57
}

/// The numeric value of the decimal digit `c`.
pub open spec fn digit_val(c: char) -> int {
    c as u32 - 48
}

/// The value of the two digits of `s` starting at `i`.
pub open spec fn num2(s: Seq<char>, i: int) -> int {
    10 * digit_val(s[i]) + digit_val(s[i + 1])
}

/// The value of the four digits of `s` starting at `i`.
pub open spec fn num4(s: Seq<char>, i: int) -> int {
    1000 * digit_val(s[i]) + 100 * digit_val(s[i + 1]) + 10 * digit_val(s[i + 2]) + digit_val(
        s[i + 3],
    )
}

/// Whether year `y` is a leap year of the proleptic Gregorian calendar.
pub open spec fn is_leap_year(y: int) -> bool {
    y % 4 == 0 && (y % 100 != 0 || y % 400 == 0)
}

/// The number of days of month `m` in year `y`.
pub open spec fn days_in_month(y: int, m: int) -> int {
    if m == 2 {
        if is_leap_year(y) {
            29
        } else {
            28
        }
    } else if m == 4 || m == 6 || m == 9 || m == 11 {
        30
    } else {
        31
    }
}

/// The number of days from 1970-01-01 to the civil date `y`-`m`-`d`,
/// negative for earlier dates. This is the standard civil-calendar day
/// count: years are shifted so the year starts in March, whole 400-year
/// eras are counted at 146097 days, and the day-of-year of the shifted
/// month `mp` is `(153 * mp + 2) / 5` days past March the first.
pub open spec fn civil_days(y: int, m: int, d: int) -> int {
    let yy_plus = if m <= 2 {
        y + 399
    } else {
        y + 400
    };
    let era_plus = yy_plus / 400;
    let yoe = yy_plus % 400;
    let mp = if m > 2 {
        m - 3
    } else {
        m + 9
    };
    let doy = (153 * mp + 2) / 5 + d - 1;
    let doe = yoe * 365 + yoe / 4 - yoe / 100 + doy;
    (era_plus - 1) * 146097 + doe - 719468
}

/// Whether `s` is a datetime in the canonical format `YYYY-MM-DD HH:MM`,
/// naming a date that exists in the calendar and a time of day.
pub open spec fn valid_datetime(s: Seq<char>) -> bool {
    &&& s.len() == 16
    &&& is_dec_digit(s[0])
    &&& is_dec_digit(s[1])
    &&& is_dec_digit(s[2])
    &&& is_dec_digit(s[3])
    &&& s[4] == '-'
    &&& is_dec_digit(s[5])
    &&& is_dec_digit(s[6])
    &&& s[7] == '-'
    &&& is_dec_digit(s[8])
    &&& is_dec_digit(s[9])
    &&& s[10] == ' '
    &&& is_dec_digit(s[11])
    &&& is_dec_digit(s[12])
    &&& s[13] == ':'
    &&& is_dec_digit(s[14])
    &&& is_dec_digit(s[15])
    &&& 1 <= num2(s, 5) <= 12
    &&& 1 <= num2(s, 8) <= days_in_month(num4(s, 0), num2(s, 5))
    &&& num2(s, 11) <= 23
    &&& num2(s, 14) <= 59
}

/// The epoch milliseconds named by a valid canonical datetime `s`,
/// interpreted as coordinated universal time.
pub open spec fn datetime_millis(s: Seq<char>) -> int {
    (civil_days(num4(s, 0), num2(s, 5), num2(s, 8)) * 86400 + num2(s, 11) * 3600 + num2(s, 14)
        * 60) * 1000
}

/// The decimal digit at position `i` of `s`, or `None` where another
/// character stands.
fn digit_at(s: &str, i: usize) -> (r: Option<u64>)
    requires
        i < s@.len(),
    ensures
        match r {
            Some(v) => is_dec_digit(s@[i as int]) && v == digit_val(s@[i as int]),
            None => !is_dec_digit(s@[i as int]),
        },
{
    let c = s.get_char(i);
    let v = c as u32;
    if 48 <= v && v <= 57 {
        Some((v - 48) as u64)
    } else {
        None
    }
}

/// Converts a canonical-format datetime to epoch milliseconds.
///
/// Returns the epoch milliseconds exactly when the text follows the
/// canonical format, and reports the malformed input otherwise: a string
/// that fails the format is always rejected, never defaulted.
pub fn from_datetime_to_epoch_time_millis(datetime_str: &str) -> (r: Result<
    i64,
    GrafanaCliError,
>)
    ensures
        valid_datetime(datetime_str@) ==> (r matches Ok(m) && m == datetime_millis(datetime_str@)),
        !valid_datetime(datetime_str@) ==> (r matches Err(e)
            && e matches GrafanaCliError::CanNotParseDateTimeToEpochTimeMillis(d) && d@
            == datetime_str@),
{
    if datetime_str.unicode_len() != 16 {
        return Err(GrafanaCliError::CanNotParseDateTimeToEpochTimeMillis(
            datetime_str.to_owned(),
        ));
    }
    let d0 = digit_at(datetime_str, 0);
    let d1 = digit_at(datetime_str, 1);
    let d2 = digit_at(datetime_str, 2);
    let d3 = digit_at(datetime_str, 3);
    let d5 = digit_at(datetime_str, 5);
    let d6 = digit_at(datetime_str, 6);
    let d8 = digit_at(datetime_str, 8);
    let d9 = digit_at(datetime_str, 9);
    let d11 = digit_at(datetime_str, 11);
    let d12 = digit_at(datetime_str, 12);
    let d14 = digit_at(datetime_str, 14);
    let d15 = digit_at(datetime_str, 15);
    let seps_ok = datetime_str.get_char(4) == '-' && datetime_str.get_char(7) == '-'
        && datetime_str.get_char(10) == ' ' && datetime_str.get_char(13) == ':';
    match (d0, d1, d2, d3, d5, d6, d8, d9, d11, d12, d14, d15) {
        (
            Some(y0),
            Some(y1),
            Some(y2),
            Some(y3),
            Some(m0),
            Some(m1),
            Some(a0),
            Some(a1),
            Some(h0),
            Some(h1),
            Some(n0),
            Some(n1),
        ) => {
            if !seps_ok {
                return Err(GrafanaCliError::CanNotParseDateTimeToEpochTimeMillis(
                    datetime_str.to_owned(),
                ));
            }
            let year: u64 = 1000 * y0 + 100 * y1 + 10 * y2 + y3;
            let month: u64 = 10 * m0 + m1;
            let day: u64 = 10 * a0 + a1;
            let hour: u64 = 10 * h0 + h1;
            let minute: u64 = 10 * n0 + n1;
            let leap = year % 4 == 0 && (year % 100 != 0 || year % 400 == 0);
            let month_days: u64 = if month == 2 {
                if leap {
                    29
                } else {
                    28
                }
            } else if month == 4 || month == 6 || month == 9 || month == 11 {
                30
            } else {
                31
            };
            if !(1 <= month && month <= 12 && 1 <= day && day <= month_days && hour <= 23
                && minute <= 59) {
                return Err(GrafanaCliError::CanNotParseDateTimeToEpochTimeMillis(
                    datetime_str.to_owned(),
                ));
            }
            let yy_plus: u64 = if month <= 2 {
                year + 399
            } else {
                year + 400
            };
            let era_plus: u64 = yy_plus / 400;
            let yoe: u64 = yy_plus % 400;
            let mp: u64 = if month > 2 {
                month - 3
            } else {
                month + 9
            };
            let doy: u64 = (153 * mp + 2) / 5 + day - 1;
            let doe: u64 = yoe * 365 + yoe / 4 - yoe / 100 + doy;
            let days: i64 = (era_plus as i64 - 1) * 146097 + doe as i64 - 719468;
            let millis: i64 = (days * 86400 + hour as i64 * 3600 + minute as i64 * 60) * 1000;
            Ok(millis)
        },
        _ => Err(GrafanaCliError::CanNotParseDateTimeToEpochTimeMillis(datetime_str.to_owned())),
    }
}

/// Converts an optional datetime option value to epoch milliseconds.
///
/// Absent input and malformed input both yield `None`; a valid canonical
/// datetime yields its epoch milliseconds.
pub fn parse_datetime_to_epoch_time_millis(datetime: &Option<String>) -> (r: Option<i64>)
    ensures
        match datetime {
            Some(s) => if valid_datetime(s@) {
                (r matches Some(m) && m == datetime_millis(s@))
            } else {
                r is None
            },
            None => r is None,
        },
{
    if let Some(datetime) = datetime {
        match from_datetime_to_epoch_time_millis(datetime.as_str()) {
            Ok(epoch_time_millis) => Some(epoch_time_millis),
            Err(_) => None,
        }
    } else {
        None
    }
}

} // verus!
