//! The clock's control panel: time, date and weather.

use vstd::prelude::*;
use vstd::string::*;

use crate::hyprwire;
use crate::text;

verus! {

/// A number below a hundred in two digits.
pub open spec fn two_digits(n: nat) -> Seq<char> {
    seq![text::digit_char(n / 10), text::digit_char(n % 10)]
}

pub open spec fn is_leap(year: int) -> bool {
    year % 4 == 0 && (year % 100 != 0 || year % 400 == 0)
}

/// The days of a year before a month.
pub open spec fn days_before_month(year: int, month: int) -> int {
    let common = if month == 1 {
        0int
    } else if month == 2 {
        31
    } else if month == 3 {
        59
    } else if month == 4 {
        90
    } else if month == 5 {
        120
    } else if month == 6 {
        151
    } else if month == 7 {
        181
    } else if month == 8 {
        212
    } else if month == 9 {
        243
    } else if month == 10 {
        273
    } else if month == 11 {
        304
    } else if month == 12 {
        334
    } else {
        365
    };
    if month > 2 && is_leap(year) {
        common + 1
    } else {
        common
    }
}

/// Whether there is such a day in the Gregorian calendar, carried back before
/// its introduction, in the years that dates reach.
pub open spec fn date_exists(year: int, month: int, day: int) -> bool {
    &&& -262143 <= year <= 262142
    &&& 1 <= month <= 12
    &&& 1 <= day <= days_before_month(year, month + 1) - days_before_month(year, month)
}

/// The days before a month, from the first day of the first year on.
pub open spec fn days_before(year: int, month: int) -> int {
    let y = year - 1;
    365 * y + y / 4 - y / 100 + y / 400 + days_before_month(year, month)
}

/// The day of the week, from Monday on. The first day of the first year was a
/// Monday.
pub open spec fn weekday(year: int, month: int, day: int) -> int {
    (days_before(year, month) + day - 1) % 7
}

pub open spec fn weekday_name(d: int) -> Seq<char> {
    if d == 0 {
        "Monday"@
    } else if d == 1 {
        "Tuesday"@
    } else if d == 2 {
        "Wednesday"@
    } else if d == 3 {
        "Thursday"@
    } else if d == 4 {
        "Friday"@
    } else if d == 5 {
        "Saturday"@
    } else {
        "Sunday"@
    }
}

pub open spec fn month_name(m: int) -> Seq<char> {
    if m == 1 {
        "January"@
    } else if m == 2 {
        "February"@
    } else if m == 3 {
        "March"@
    } else if m == 4 {
        "April"@
    } else if m == 5 {
        "May"@
    } else if m == 6 {
        "June"@
    } else if m == 7 {
        "July"@
    } else if m == 8 {
        "August"@
    } else if m == 9 {
        "September"@
    } else if m == 10 {
        "October"@
    } else if m == 11 {
        "November"@
    } else {
        "December"@
    }
}

/// The time as the panel shows it.
pub open spec fn time_text(hour: nat, minute: nat) -> Seq<char> {
    two_digits(hour) + ":"@ + two_digits(minute)
}

/// The date as the panel shows it.
pub open spec fn date_text(year: int, month: int, day: int) -> Seq<char> {
    weekday_name(weekday(year, month, day)) + ", "@ + month_name(month) + " "@ + text::dec(
        day as nat,
    )
}

pub open spec fn time_label(hour: nat, minute: nat) -> Option<Seq<char>> {
    if hour < 24 && minute < 60 {
        Some(time_text(hour, minute))
    } else {
        None
    }
}

pub open spec fn date_label(year: int, month: int, day: int) -> Option<Seq<char>> {
    if date_exists(year, month, day) {
        Some(date_text(year, month, day))
    } else {
        None
    }
}

/// `chrono::NaiveTime::from_hms_opt` and `format` with `%H:%M`: hour and minute
/// in two digits each, where there is such a time.
#[verifier::external_body]
fn format_time(hour: u32, minute: u32) -> (r: Option<String>)
    ensures
        text::opt_string_view(r) == time_label(hour as nat, minute as nat),
{
    Some(chrono::NaiveTime::from_hms_opt(hour, minute, 0)?.format("%H:%M").to_string())
}

/// `chrono::NaiveDate::from_ymd_opt` and `format` with `%A, %B %-d`: the
/// weekday, the month and the day, where there is such a day.
#[verifier::external_body]
fn format_date(year: i32, month: u32, day: u32) -> (r: Option<String>)
    ensures
        text::opt_string_view(r) == date_label(year as int, month as int, day as int),
{
    Some(chrono::NaiveDate::from_ymd_opt(year, month, day)?.format("%A, %B %-d").to_string())
}

/// A moment of local time.
#[derive(Debug, Clone, Copy)]
pub struct LocalTime {
    pub year: i32,
    pub month: u32,
    pub day: u32,
    pub hour: u32,
    pub minute: u32,
}

/// What the time and date labels show; `None` for a moment that does not
/// exist.
pub fn refresh_time_labels(now: LocalTime) -> (r: Option<(String, String)>)
    ensures
        match r {
            Some((time, date)) => {
                &&& now.hour < 24 && now.minute < 60
                &&& date_exists(now.year as int, now.month as int, now.day as int)
                &&& time@ == time_text(now.hour as nat, now.minute as nat)
                &&& date@ == date_text(now.year as int, now.month as int, now.day as int)
            },
            None => now.hour >= 24 || now.minute >= 60 || !date_exists(
                now.year as int,
                now.month as int,
                now.day as int,
            ),
        },
{
    let time = match format_time(now.hour, now.minute) {
        Some(t) => t,
        None => {
            return None;
        },
    };
    match format_date(now.year, now.month, now.day) {
        Some(d) => Some((time, d)),
        None => None,
    }
}

/// What the weather label shows after its command ended: its output without
/// blanks around it, where it succeeded and printed text. Otherwise the label
/// stays.
pub open spec fn weather_text(success: bool, stdout: Seq<u8>) -> Option<Seq<char>> {
    if success && vstd::utf8::valid_utf8(stdout) {
        let t = text::trim_spec(vstd::utf8::decode_utf8(stdout));
        if t.len() > 0 {
            Some(t)
        } else {
            None
        }
    } else {
        None
    }
}

/// What the weather label shows after its command ended.
pub fn refresh_weather_label(success: bool, stdout: Vec<u8>) -> (r: Option<String>)
    ensures
        text::opt_string_view(r) == weather_text(success, stdout@),
{
    if !success {
        return None;
    }
    match hyprwire::string_from_utf8(stdout) {
        Ok(s) => {
            let t = text::trim(s.as_str());
            if t.unicode_len() > 0 {
                Some(t.to_string())
            } else {
                None
            }
        },
        Err(_) => None,
    }
}

/// A week has seven days: a date and the one a week later within the month
/// fall on the same weekday, and the next day on the next.
pub proof fn law_weekdays_repeat(year: int, month: int, day: int)
    ensures
        weekday(year, month, day + 7) == weekday(year, month, day),
        weekday(year, month, day + 1) == (weekday(year, month, day) + 1) % 7,
{
    lemma_weekday_steps(days_before(year, month) + day - 1);
}

proof fn lemma_weekday_steps(n: int)
    ensures
        (n + 7) % 7 == n % 7,
        (n + 1) % 7 == (n % 7 + 1) % 7,
{
}

/// Years follow each other without a gap in the days of the week.
pub proof fn law_new_year_follows_new_years_eve(year: int)
    ensures
        weekday(year + 1, 1, 1) == (weekday(year, 12, 31) + 1) % 7,
{
    lemma_weekday_steps(days_before(year, 12) + 30);
    let y = year;
    assert(y / 4 - (y - 1) / 4 == if y % 4 == 0 {
        1int
    } else {
        0
    });
    assert(y / 100 - (y - 1) / 100 == if y % 100 == 0 {
        1int
    } else {
        0
    });
    assert(y / 400 - (y - 1) / 400 == if y % 400 == 0 {
        1int
    } else {
        0
    });
}

} // verus!
