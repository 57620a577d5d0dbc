use vstd::prelude::*;

use chrono::{Datelike, TimeZone, Timelike};

verus! {

/// A proleptic Gregorian calendar date.
#[derive(Debug)]
pub struct CalendarDate {
    pub year: i32,
    pub month: u32,
    pub day: u32,
}

/// A wall-clock time of day.
#[derive(Debug)]
pub struct ClockTime {
    pub hour: u32,
    pub minute: u32,
    pub second: u32,
}

/// A calendar date with a wall-clock time, without time zone.
#[derive(Debug)]
pub struct CalendarDateTime {
    pub date: CalendarDate,
    pub time: ClockTime,
}

/// A point in time: whole seconds since the Unix epoch and the nanoseconds past them.
#[derive(Debug)]
pub struct Instant {
    pub seconds: i64,
    pub nanos: u32,
}

impl CalendarDate {
    pub open spec fn ymd(&self) -> (int, int, int) {
        (self.year as int, self.month as int, self.day as int)
    }
}

pub open spec fn is_leap_year(y: int) -> bool {
    (y % 4 == 0 && y % 100 != 0) || y % 400 == 0
}

pub open spec fn days_in_month(y: int, m: int) -> int {
    if m == 2 {
        if is_leap_year(y) { 29 } else { 28 }
    } else if m == 4 || m == 6 || m == 9 || m == 11 {
        30
    } else {
        31
    }
}

/// The dates that chrono's `NaiveDate` can hold: real Gregorian dates in years
/// -262143 to 262142.
pub open spec fn calendar_date_exists(d: (int, int, int)) -> bool {
    &&& -262143 <= d.0 <= 262142
    &&& 1 <= d.1 <= 12
    &&& 1 <= d.2 <= days_in_month(d.0, d.1)
}

/// Chronological order of dates.
pub open spec fn date_before(a: (int, int, int), b: (int, int, int)) -> bool {
    a.0 < b.0 || (a.0 == b.0 && (a.1 < b.1 || (a.1 == b.1 && a.2 < b.2)))
}

/// Chronological order of dates is a strict total order: no date is before itself, order
/// is transitive and one-way, and of two different dates one comes before the other.
pub proof fn date_before_is_a_strict_total_order(a: (int, int, int), b: (int, int, int), c: (int, int, int))
    ensures
        !date_before(a, a),
        date_before(a, b) ==> !date_before(b, a),
        date_before(a, b) && date_before(b, c) ==> date_before(a, c),
        a != b ==> date_before(a, b) || date_before(b, a),
{
}

/// Chronological order of instants.
pub open spec fn instant_before(a: Instant, b: Instant) -> bool {
    a.seconds < b.seconds || (a.seconds == b.seconds && a.nanos < b.nanos)
}

/// `YYYY-MM-DD`, the date format of the whole application.
pub open spec fn ymd_format() -> Seq<char> {
    seq!['%', 'Y', '-', '%', 'm', '-', '%', 'd']
}

/// The text `%Y-%m-%d`.
pub fn ymd_format_text() -> (r: &'static str)
    ensures
        r@ == ymd_format(),
{
    proof {
        reveal_strlit("%Y-%m-%d");
    }
    "%Y-%m-%d"
}

/// `HH:MM:SS`.
pub open spec fn hms_format() -> Seq<char> {
    seq!['%', 'H', ':', '%', 'M', ':', '%', 'S']
}

/// What `chrono::NaiveDate::parse_from_str` gives for `text` with `format`: the date as
/// (year, month, day), or the text of its parse error.
pub uninterp spec fn naive_date_parse_outcome(text: Seq<char>, format: Seq<char>) -> Result<(int, int, int), Seq<char>>;

/// The date `chrono::NaiveDate::parse_from_str` reads from `text` with `format`, if any.
pub open spec fn naive_date_parsed(text: Seq<char>, format: Seq<char>) -> Option<(int, int, int)> {
    match naive_date_parse_outcome(text, format) {
        Ok(t) => Some(t),
        Err(_) => None,
    }
}

/// The decimal digits of `n`.
pub open spec fn decimal(n: nat) -> Seq<char>
    decreases n,
{
    if n < 10 {
        seq![(48 + n) as char]
    } else {
        decimal(n / 10) + seq![(48 + n % 10) as char]
    }
}

/// The decimal digits of `n`, with leading zeros up to `width` digits.
pub open spec fn zero_padded(n: nat, width: nat) -> Seq<char> {
    let d = decimal(n);
    if d.len() >= width {
        d
    } else {
        Seq::new((width - d.len()) as nat, |i: int| '0') + d
    }
}

/// `%Y`: the year zero-padded to 4 digits, with a sign before a year outside 0 to 9999.
pub open spec fn year_text(y: int) -> Seq<char> {
    if 0 <= y <= 9999 {
        zero_padded(y as nat, 4)
    } else if y < 0 {
        seq!['-'] + zero_padded((-y) as nat, 4)
    } else {
        seq!['+'] + zero_padded(y as nat, 4)
    }
}

/// The text of a date in `%Y-%m-%d`: year, month and day, month and day zero-padded to
/// 2 digits.
pub open spec fn ymd_text(date: (int, int, int)) -> Seq<char> {
    year_text(date.0) + seq!['-'] + zero_padded(date.1 as nat, 2) + seq!['-'] + zero_padded(date.2 as nat, 2)
}

/// A real date with a year of four digits (0 to 9999), whose `%Y` text has no sign.
pub open spec fn four_digit_day(d: (int, int, int)) -> bool {
    calendar_date_exists(d) && 0 <= d.0 <= 9999
}

proof fn lemma_decimal_len(n: nat)
    ensures
        n < 10 ==> decimal(n).len() == 1,
        10 <= n < 100 ==> decimal(n).len() == 2,
        100 <= n < 1000 ==> decimal(n).len() == 3,
        1000 <= n < 10000 ==> decimal(n).len() == 4,
    decreases n,
{
    if n >= 10 {
        lemma_decimal_len(n / 10);
    }
}

/// The `%Y-%m-%d` text of a date with a four-digit year is ten characters long.
pub proof fn ymd_text_of_four_digit_year_has_ten_chars(d: (int, int, int))
    requires
        four_digit_day(d),
    ensures
        ymd_text(d).len() == 10,
{
    lemma_decimal_len(d.0 as nat);
    lemma_decimal_len(d.1 as nat);
    lemma_decimal_len(d.2 as nat);
}

/// The time `chrono::NaiveTime::parse_from_str` reads from `text` with `format`, as
/// (hour, minute, second).
pub uninterp spec fn naive_time_parsed(text: Seq<char>, format: Seq<char>) -> Option<(int, int, int)>;

/// The date and time `chrono::NaiveDateTime::parse_from_str` reads from `text` with
/// `format`, as ((year, month, day), (hour, minute, second)).
pub uninterp spec fn naive_datetime_parsed(text: Seq<char>, format: Seq<char>) -> Option<((int, int, int), (int, int, int))>;

/// `chrono::NaiveDate::parse_from_str`, its error given as its `Display` text. Claims: the
/// result is the named outcome for `text` and `format`; a date it gives is one that
/// `NaiveDate` can hold; and with the format `%Y-%m-%d`, the text chrono writes for a date
/// with a four-digit year reads back as that date (`%Y` without a sign takes up to four
/// digits, `%m` and `%d` up to two, and `-` matches itself).
#[verifier::external_body]
pub fn parse_naive_date_or_error(text: &str, format: &str) -> (r: Result<CalendarDate, String>)
    ensures
        match naive_date_parse_outcome(text@, format@) {
            Ok(t) => r matches Ok(d) && d.ymd() == t,
            Err(m) => r matches Err(e) && e@ == m,
        },
        r matches Ok(d) ==> calendar_date_exists(d.ymd()),
        (format@ == ymd_format() && exists|t: (int, int, int)| #![trigger ymd_text(t)] four_digit_day(t) && text@ == ymd_text(t))
            ==> r is Ok,
        r matches Ok(d) ==> forall|t: (int, int, int)|
            #![trigger ymd_text(t)]
            format@ == ymd_format() && four_digit_day(t) && text@ == ymd_text(t) ==> d.ymd() == t,
{
    match chrono::NaiveDate::parse_from_str(text, format) {
        Ok(d) => Ok(CalendarDate { year: d.year(), month: d.month(), day: d.day() }),
        Err(e) => Err(e.to_string()),
    }
}

/// The date that `text` reads as with `format`, if any.
pub fn parse_naive_date(text: &str, format: &str) -> (r: Option<CalendarDate>)
    ensures
        match naive_date_parsed(text@, format@) {
            Some(t) => r matches Some(d) && d.ymd() == t,
            None => r is None,
        },
        r matches Some(d) ==> calendar_date_exists(d.ymd()),
        forall|t: (int, int, int)|
            #![trigger ymd_text(t)]
            format@ == ymd_format() && four_digit_day(t) && text@ == ymd_text(t) ==> (r matches Some(d) && d.ymd() == t),
{
    match parse_naive_date_or_error(text, format) {
        Ok(d) => Some(d),
        Err(_) => None,
    }
}

/// `chrono::NaiveDate::format(..).to_string()` with the `%Y-%m-%d` format (for which
/// chrono's format parser yields no error item, so that `to_string` does not panic).
/// Claims: the text is `ymd_text` of the date, as chrono documents `%Y`, `%m` and `%d`
/// (a year outside 0 to 9999 written with its sign).
#[verifier::external_body]
pub fn format_naive_date(date: &CalendarDate, format: &str) -> (r: String)
    requires
        calendar_date_exists(date.ymd()),
        format@ == ymd_format(),
    ensures
        r@ == ymd_text(date.ymd()),
{
    chrono::NaiveDate::from_ymd_opt(date.year, date.month, date.day).unwrap().format(format).to_string()
}

/// `chrono::NaiveTime::parse_from_str`. Claims: the result is the named parse, with hour,
/// minute and second in the ranges that `Timelike` documents.
#[verifier::external_body]
pub fn parse_naive_time(text: &str, format: &str) -> (r: Option<ClockTime>)
    ensures
        match naive_time_parsed(text@, format@) {
            Some(t) => r matches Some(c) && (c.hour as int, c.minute as int, c.second as int) == t,
            None => r is None,
        },
        r matches Some(c) ==> c.hour < 24 && c.minute < 60 && c.second < 60,
{
    match chrono::NaiveTime::parse_from_str(text, format) {
        Ok(t) => Some(ClockTime { hour: t.hour(), minute: t.minute(), second: t.second() }),
        Err(_) => None,
    }
}

/// `chrono::NaiveDateTime::parse_from_str`. Claims: the result is the named parse, its date
/// is one that `NaiveDate` can hold and its time fields lie in the ranges `Timelike` documents.
#[verifier::external_body]
pub fn parse_naive_datetime(text: &str, format: &str) -> (r: Option<CalendarDateTime>)
    ensures
        match naive_datetime_parsed(text@, format@) {
            Some(t) => r matches Some(c) && c.date.ymd() == t.0 && (
                c.time.hour as int,
                c.time.minute as int,
                c.time.second as int,
            ) == t.1,
            None => r is None,
        },
        r matches Some(c) ==> calendar_date_exists(c.date.ymd()),
        r matches Some(c) ==> c.time.hour < 24 && c.time.minute < 60 && c.time.second < 60,
{
    match chrono::NaiveDateTime::parse_from_str(text, format) {
        Ok(t) => Some(
            CalendarDateTime {
                date: CalendarDate { year: t.year(), month: t.month(), day: t.day() },
                time: ClockTime { hour: t.hour(), minute: t.minute(), second: t.second() },
            },
        ),
        Err(_) => None,
    }
}

/// `chrono::Local::now().date_naive()`: today in the machine's time zone. Claims only that
/// the date is one that `NaiveDate` can hold; which day it is depends on the clock.
#[verifier::external_body]
pub fn local_today() -> (r: CalendarDate)
    ensures
        calendar_date_exists(r.ymd()),
{
    let d = chrono::Local::now().date_naive();
    CalendarDate { year: d.year(), month: d.month(), day: d.day() }
}

/// `chrono::Utc::now().date_naive()`: today in UTC. Claims only that the date is one that
/// `NaiveDate` can hold.
#[verifier::external_body]
pub fn utc_today() -> (r: CalendarDate)
    ensures
        calendar_date_exists(r.ymd()),
{
    let d = chrono::Utc::now().date_naive();
    CalendarDate { year: d.year(), month: d.month(), day: d.day() }
}

/// Days from 1970-01-01 to the date, in the proleptic Gregorian calendar (negative before).
pub open spec fn epoch_days(d: (int, int, int)) -> int {
    let (y0, m, day) = d;
    let y = if m <= 2 { y0 - 1 } else { y0 };
    let era = y / 400;
    let yoe = y - era * 400;
    let mp = if m > 2 { m - 3 } else { m + 9 };
    let doy = (153 * mp + 2) / 5 + day - 1;
    let doe = yoe * 365 + yoe / 4 - yoe / 100 + doy;
    era * 146097 + doe - 719468
}

/// The seconds since the Unix epoch of a wall-clock time read as UTC.
pub open spec fn utc_seconds(t: CalendarDateTime) -> int {
    epoch_days(t.date.ymd()) * 86400 + t.time.hour * 3600 + t.time.minute * 60 + t.time.second
}

/// The instant a wall-clock time stands for at some offset from UTC of less than a day
/// (the bound of chrono's `FixedOffset`), with no fraction of a second.
pub open spec fn at_local_offset(i: Instant, t: CalendarDateTime) -> bool {
    i.nanos == 0 && utc_seconds(t) - 86400 < i.seconds < utc_seconds(t) + 86400
}

/// `chrono::Local.from_local_datetime(..).single()` converted to UTC: the instant that a
/// wall-clock time of the machine's time zone denotes, or `None` when that wall-clock time
/// is skipped or repeated there. Claims only that an instant it gives is the wall-clock
/// time minus the zone's offset there, which `FixedOffset` keeps under a day, with no
/// fraction of a second; which offset applies depends on the machine's time zone.
#[verifier::external_body]
pub fn local_datetime_to_instant(t: &CalendarDateTime) -> (r: Option<Instant>)
    requires
        calendar_date_exists(t.date.ymd()),
        t.time.hour < 24 && t.time.minute < 60 && t.time.second < 60,
    ensures
        r matches Some(i) ==> at_local_offset(i, *t),
{
    let date = chrono::NaiveDate::from_ymd_opt(t.date.year, t.date.month, t.date.day).unwrap();
    let naive = date.and_hms_opt(t.time.hour, t.time.minute, t.time.second).unwrap();
    chrono::Local.from_local_datetime(&naive).single().map(
        |dt| Instant { seconds: dt.timestamp(), nanos: dt.timestamp_subsec_nanos() },
    )
}

/// Instants this library hands to chrono: within about 250,000 years of 1970, well inside
/// what `DateTime` holds, with a local offset of up to a day on either side.
pub open spec fn instant_in_range(t: Instant) -> bool {
    -8_000_000_000_000 <= t.seconds <= 8_000_000_000_000 && t.nanos < 1_000_000_000
}

/// `DateTime::from_timestamp(..).with_timezone(&chrono::Local).date_naive()`: the day an
/// instant falls on in the machine's time zone. Claims only that it is a date `NaiveDate`
/// can hold; which day it is depends on the time zone.
#[verifier::external_body]
pub fn instant_local_date(t: &Instant) -> (r: CalendarDate)
    requires
        instant_in_range(*t),
    ensures
        calendar_date_exists(r.ymd()),
{
    let d = chrono::DateTime::from_timestamp(t.seconds, t.nanos).unwrap().with_timezone(&chrono::Local).date_naive();
    CalendarDate { year: d.year(), month: d.month(), day: d.day() }
}

pub fn date_is_before(a: &CalendarDate, b: &CalendarDate) -> (r: bool)
    ensures
        r == date_before(a.ymd(), b.ymd()),
{
    a.year < b.year || (a.year == b.year && (a.month < b.month || (a.month == b.month && a.day < b.day)))
}

pub fn instant_is_before(a: &Instant, b: &Instant) -> (r: bool)
    ensures
        r == instant_before(*a, *b),
{
    a.seconds < b.seconds || (a.seconds == b.seconds && a.nanos < b.nanos)
}

} // verus!
