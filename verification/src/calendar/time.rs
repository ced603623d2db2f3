//! Dates and times as calendars write them.
use crate::decimal::{self, all_digits, digit_char, signed_of, unsigned_of};
use crate::text::{self, trimmed};
use crate::types::Timestamp;
use vstd::prelude::*;

verus! {

pub open spec fn is_leap(y: int) -> bool {
    y % 4 == 0 && (y % 100 != 0 || y % 400 == 0)
}

/// The number of days of a month.
pub open spec fn month_days(y: int, m: int) -> int {
    if m == 2 {
        if is_leap(y) {
            29
        } else {
            28
        }
    } else if m == 4 || m == 6 || m == 9 || m == 11 {
        30
    } else {
        31
    }
}

/// The number of days of a year before a month.
pub open spec fn days_before_month(y: int, m: int) -> int
    decreases m,
{
    if m <= 1 {
        0
    } else {
        days_before_month(y, m - 1) + month_days(y, m - 1)
    }
}

/// The number of days between the start of the year 0 and that of a year: one more than 365 for
/// each leap year in between.
pub open spec fn days_before_year(y: int) -> int {
    365 * y + (y + 3) / 4 - (y + 99) / 100 + (y + 399) / 400
}

/// Whether a day exists, in a year that chrono can hold.
pub open spec fn is_day(y: int, m: int, d: int) -> bool {
    -262_143 <= y <= 262_142 && 1 <= m <= 12 && 1 <= d <= month_days(y, m)
}

/// The start of a day of the proleptic Gregorian calendar, in seconds since the Unix epoch:
/// nothing for a day that does not exist.
pub open spec fn unix_date_of(y: i32, m: u32, d: u32) -> Option<i64> {
    if is_day(y as int, m as int, d as int) {
        let days = days_before_year(y as int) + days_before_month(y as int, m as int) + d - 1;
        Some((86400 * (days - days_before_year(1970))) as i64)
    } else {
        None
    }
}

/// What the start of a day looks like: the month and the day are ones that a calendar has, the
/// time is a multiple of a day and within some 285000 years of the epoch.
pub open spec fn starts_day(t: i64, m: u32, d: u32) -> bool {
    &&& 1 <= m <= 12
    &&& 1 <= d <= 31
    &&& t % 86400 == 0
    &&& -9_000_000_000_000 <= t <= 9_000_000_000_000
}

proof fn lemma_day_of_year(y: int, m: int, d: int)
    requires
        1 <= m <= 12,
        1 <= d <= month_days(y, m),
    ensures
        0 <= days_before_month(y, m) <= days_before_month(y, m) + d - 1 < (if is_leap(y) {
            366int
        } else {
            365
        }),
{
    reveal_with_fuel(days_before_month, 13);
}

proof fn lemma_starts_day(y: i32, m: u32, d: u32)
    ensures
        unix_date_of(y, m, d) matches Some(t) ==> starts_day(t, m, d) && t == 86400 * (
        days_before_year(y as int) + days_before_month(y as int, m as int) + d - 1
            - days_before_year(1970)),
{
    if is_day(y as int, m as int, d as int) {
        lemma_day_of_year(y as int, m as int, d as int);
        let days = days_before_year(y as int) + days_before_month(y as int, m as int) + d - 1;
        let n = days - days_before_year(1970);
        assert(-97_000_000 <= days_before_year(y as int) <= 97_000_000);
        assert(days_before_year(1970) == 719_528);
        assert((86400 * n) % 86400 == 0) by (nonlinear_arith);
    }
}

proof fn lemma_next_year(y: int)
    ensures
        days_before_year(y + 1) == days_before_year(y) + (if is_leap(y) {
            366int
        } else {
            365
        }),
{
    assert((y + 1 + 3) / 4 - (y + 3) / 4 == if y % 4 == 0 { 1int } else { 0 });
    assert((y + 1 + 99) / 100 - (y + 99) / 100 == if y % 100 == 0 { 1int } else { 0 });
    assert((y + 1 + 399) / 400 - (y + 399) / 400 == if y % 400 == 0 { 1int } else { 0 });
    assert(y % 100 == 0 ==> y % 4 == 0);
    assert(y % 400 == 0 ==> y % 100 == 0);
}

proof fn lemma_later_year(y: int, z: int)
    requires
        y < z,
    ensures
        days_before_year(z) >= days_before_year(y) + (if is_leap(y) {
            366int
        } else {
            365
        }),
    decreases z - y,
{
    lemma_next_year(z - 1);
    if y < z - 1 {
        lemma_later_year(y, z - 1);
    }
}

/// Different days start at different times.
pub proof fn law_days_are_apart(y: i32, m: u32, d: u32, y2: i32, m2: u32, d2: u32)
    requires
        unix_date_of(y, m, d) is Some,
        unix_date_of(y, m, d) == unix_date_of(y2, m2, d2),
    ensures
        y == y2 && m == m2 && d == d2,
{
    lemma_starts_day(y, m, d);
    lemma_starts_day(y2, m2, d2);
    lemma_day_of_year(y as int, m as int, d as int);
    lemma_day_of_year(y2 as int, m2 as int, d2 as int);
    if y < y2 {
        lemma_later_year(y as int, y2 as int);
    } else if y2 < y {
        lemma_later_year(y2 as int, y as int);
    }
    reveal_with_fuel(days_before_month, 13);
}

/// `chrono::NaiveDate::from_ymd_opt` and the time stamp of its midnight in UTC: the day where the
/// proleptic Gregorian calendar has it and its year is one that chrono can hold.
#[verifier::external_body]
fn civil_date(y: i32, m: u32, d: u32) -> (r: Option<i64>)
    ensures
        r == unix_date_of(y, m, d),
{
    let day = chrono::NaiveDate::from_ymd_opt(y, m, d)?;
    Some(day.and_time(chrono::NaiveTime::MIN).and_utc().timestamp())
}

/// The start of a day in seconds since the Unix epoch.
pub fn date_to_unix(y: i32, m: u32, d: u32) -> (r: Option<i64>)
    ensures
        r == unix_date_of(y, m, d),
        r matches Some(t) ==> starts_day(t, m, d),
{
    proof {
        lemma_starts_day(y, m, d);
    }
    civil_date(y, m, d)
}

/// A time of a day in seconds since the Unix epoch, given the start of the day: nothing for an
/// hour, minute or second that no clock shows.
pub open spec fn clock_time(day: Option<i64>, h: u32, mi: u32, s: u32) -> Option<i64> {
    match day {
        Some(t) if h < 24 && mi < 60 && s < 60 => Some((t + 3600 * h + 60 * mi + s) as i64),
        _ => None,
    }
}

/// Places a time of day on a day.
pub fn on_the_clock(day: Option<i64>, h: u32, mi: u32, s: u32) -> (r: Option<i64>)
    requires
        day matches Some(t) ==> -9_000_000_000_000 <= t <= 9_000_000_000_000,
    ensures
        r == clock_time(day, h, mi, s),
{
    match day {
        Some(t) => {
            if h < 24 && mi < 60 && s < 60 {
                Some(t + 3600 * (h as i64) + 60 * (mi as i64) + (s as i64))
            } else {
                None
            }
        },
        None => None,
    }
}

/// What a year reads from a text.
pub open spec fn year_of(s: Seq<char>) -> Option<i32> {
    match signed_of(s) {
        Some(n) if i32::MIN <= n <= i32::MAX => Some(n as i32),
        _ => None,
    }
}

/// What any other part of a date or time reads from a text.
pub open spec fn part_of(s: Seq<char>) -> Option<u32> {
    match unsigned_of(s, u32::MAX as int) {
        Some(n) => Some(n as u32),
        None => None,
    }
}

fn read_year(v: &Vec<char>, from: usize, to: usize) -> (r: Option<i32>)
    requires
        from <= to <= v@.len(),
    ensures
        r == year_of(v@.subrange(from as int, to as int)),
{
    let s = text::from_chars(v, from, to);
    match decimal::parse_signed(s.as_str()) {
        Some(n) => {
            if i32::MIN as i64 <= n && n <= i32::MAX as i64 {
                Some(n as i32)
            } else {
                None
            }
        },
        None => None,
    }
}

fn read_part(v: &Vec<char>, from: usize, to: usize) -> (r: Option<u32>)
    requires
        from <= to <= v@.len(),
    ensures
        r == part_of(v@.subrange(from as int, to as int)),
{
    let s = text::from_chars(v, from, to);
    match decimal::parse_unsigned(s.as_str(), u32::MAX as u64) {
        Some(n) => Some(n as u32),
        None => None,
    }
}

/// The date in the first eight characters of a text: four for the year, two for the month, two
/// for the day.
pub open spec fn date_part(v: Seq<char>) -> Option<(i32, u32, u32)> {
    if v.len() < 8 {
        None
    } else {
        match (
            year_of(v.subrange(0, 4)),
            part_of(v.subrange(4, 6)),
            part_of(v.subrange(6, 8)),
        ) {
            (Some(y), Some(m), Some(d)) => Some((y, m, d)),
            _ => None,
        }
    }
}

fn read_date(v: &Vec<char>) -> (r: Option<(i32, u32, u32)>)
    ensures
        r == date_part(v@),
{
    if v.len() < 8 {
        return None;
    }
    match (read_year(v, 0, 4), read_part(v, 4, 6), read_part(v, 6, 8)) {
        (Some(y), Some(m), Some(d)) => Some((y, m, d)),
        _ => None,
    }
}

/// The time of day behind the date and one separating character: two digits each for hour,
/// minute and second.
pub open spec fn clock_part(v: Seq<char>) -> Option<(u32, u32, u32)> {
    if v.len() < 15 || v[8] as u32 >= 128 {
        None
    } else {
        match (
            part_of(v.subrange(9, 11)),
            part_of(v.subrange(11, 13)),
            part_of(v.subrange(13, 15)),
        ) {
            (Some(h), Some(mi), Some(s)) => Some((h, mi, s)),
            _ => None,
        }
    }
}

fn read_clock(v: &Vec<char>) -> (r: Option<(u32, u32, u32)>)
    ensures
        r == clock_part(v@),
{
    if v.len() < 15 || v[8] as u32 >= 128 {
        return None;
    }
    match (read_part(v, 9, 11), read_part(v, 11, 13), read_part(v, 13, 15)) {
        (Some(h), Some(mi), Some(s)) => Some((h, mi, s)),
        _ => None,
    }
}

fn digits_only(v: &Vec<char>) -> (r: bool)
    ensures
        r == all_digits(v@),
{
    let mut i: usize = 0;
    while i < v.len()
        invariant
            i <= v@.len(),
            forall|j: int| 0 <= j < i ==> decimal::is_digit(#[trigger] v@[j]),
        decreases v@.len() - i,
    {
        if !('0' <= v[i] && v[i] <= '9') {
            assert(!decimal::is_digit(v@[i as int]));
            return false;
        }
        i = i + 1;
    }
    true
}

/// The instant that an iCalendar date or date-time names, and whether it is a whole day.
///
/// A value marked as a date, or of eight digits, is the start of its day. Any other value needs
/// a time of day behind the date; a leap second counts as the second before it.
pub open spec fn dt_reading(value: Seq<char>, is_date: bool) -> Option<(i64, bool)> {
    let v = trimmed(value);
    match date_part(v) {
        None => None,
        Some((y, m, d)) => if is_date || (v.len() == 8 && all_digits(v)) {
            match unix_date_of(y, m, d) {
                Some(t) => Some((t, true)),
                None => None,
            }
        } else {
            match clock_part(v) {
                None => None,
                Some((h, mi, s)) => match clock_time(
                    unix_date_of(y, m, d),
                    h,
                    mi,
                    if s > 59 { 59 } else { s },
                ) {
                    Some(t) => Some((t, false)),
                    None => None,
                },
            }
        },
    }
}

/// Reads an iCalendar date or date-time into seconds since the Unix epoch, with a mark for a
/// whole day. A time without a `Z` counts as UTC.
pub fn parse_dt(value: &str, is_date: bool) -> (r: Option<(i64, bool)>)
    ensures
        r == dt_reading(value@, is_date),
{
    let t = text::trim(value);
    let v = text::to_chars(t.as_str());
    let (y, m, d) = read_date(&v)?;
    if is_date || (v.len() == 8 && digits_only(&v)) {
        return match date_to_unix(y, m, d) {
            Some(t) => Some((t, true)),
            None => None,
        };
    }
    let (h, mi, s) = read_clock(&v)?;
    let second: u32 = if s > 59 { 59 } else { s };
    match on_the_clock(date_to_unix(y, m, d), h, mi, second) {
        Some(t) => Some((t, false)),
        None => None,
    }
}

/// The instant that a bound of a time range names: eight digits for the start of a day, or a
/// date and a time of day. A leap second is no such time.
pub open spec fn range_reading(value: Seq<char>) -> Option<i64> {
    let v = trimmed(value);
    match date_part(v) {
        None => None,
        Some((y, m, d)) => if v.len() == 8 && all_digits(v) {
            unix_date_of(y, m, d)
        } else {
            match clock_part(v) {
                None => None,
                Some((h, mi, s)) => clock_time(unix_date_of(y, m, d), h, mi, s),
            }
        },
    }
}

/// Reads a bound of a time range. A malformed one counts as no bound.
pub fn parse_caldav_dt(value: &str) -> (r: Option<Timestamp>)
    ensures
        r == (match range_reading(value@) {
            Some(t) => Some(Timestamp(t)),
            None => None,
        }),
{
    let t = text::trim(value);
    let v = text::to_chars(t.as_str());
    let (y, m, d) = read_date(&v)?;
    let whole = v.len() == 8 && digits_only(&v);
    let at = if whole {
        date_to_unix(y, m, d)
    } else {
        let (h, mi, s) = read_clock(&v)?;
        on_the_clock(date_to_unix(y, m, d), h, mi, s)
    };
    match at {
        Some(t) => Some(Timestamp(t)),
        None => None,
    }
}

/// A number below a hundred in two digits.
pub open spec fn two_digits(n: int) -> Seq<char> {
    seq![digit_char(n / 10 % 10), digit_char(n % 10)]
}

/// A number below ten thousand in four digits.
pub open spec fn four_digits(n: int) -> Seq<char> {
    two_digits(n / 100) + two_digits(n % 100)
}

/// A date without separators.
pub open spec fn basic_date(y: i32, m: u32, d: u32) -> Seq<char> {
    four_digits(y as int) + two_digits(m as int) + two_digits(d as int)
}

/// A UTC time without separators.
pub open spec fn basic_time(y: i32, m: u32, d: u32, h: int, mi: int, s: int) -> Seq<char> {
    basic_date(y, m, d) + seq!['T'] + two_digits(h) + two_digits(mi) + two_digits(s) + seq!['Z']
}

/// A date in the extended form of ISO 8601.
pub open spec fn iso_date(y: i32, m: u32, d: u32) -> Seq<char> {
    four_digits(y as int) + seq!['-'] + two_digits(m as int) + seq!['-'] + two_digits(d as int)
}

/// A UTC time in the extended form of ISO 8601.
pub open spec fn iso_time(y: i32, m: u32, d: u32, h: int, mi: int, s: int) -> Seq<char> {
    iso_date(y, m, d) + seq!['T'] + two_digits(h) + seq![':'] + two_digits(mi) + seq![':']
        + two_digits(s) + seq!['Z']
}

/// The shapes in which times are written.
#[derive(Debug, Clone, Copy, PartialEq, Eq, Structural)]
pub enum TimeStyle {
    BasicDate,
    BasicTime,
    IsoDate,
    IsoTime,
    /// A date and a time of day to the minute, for people.
    Minute,
}

/// An instant in one of the shapes, given its day.
pub open spec fn written(style: TimeStyle, y: i32, m: u32, d: u32, secs: int) -> Seq<char> {
    let (h, mi, s) = (secs / 3600, secs / 60 % 60, secs % 60);
    match style {
        TimeStyle::BasicDate => basic_date(y, m, d),
        TimeStyle::BasicTime => basic_time(y, m, d, h, mi, s),
        TimeStyle::IsoDate => iso_date(y, m, d),
        TimeStyle::IsoTime => iso_time(y, m, d, h, mi, s),
        TimeStyle::Minute => iso_date(y, m, d) + seq![' '] + two_digits(h) + seq![':'] + two_digits(
            mi,
        ) + seq![' ', 'U', 'T', 'C'],
    }
}

/// The pattern of each shape.
pub open spec fn pattern(style: TimeStyle) -> Seq<char> {
    match style {
        TimeStyle::BasicDate => "%Y%m%d"@,
        TimeStyle::BasicTime => "%Y%m%dT%H%M%SZ"@,
        TimeStyle::IsoDate => "%Y-%m-%d"@,
        TimeStyle::IsoTime => "%Y-%m-%dT%H:%M:%SZ"@,
        TimeStyle::Minute => "%Y-%m-%d %H:%M UTC"@,
    }
}

/// What chrono writes for an instant under a pattern: nothing outside its range of years.
pub uninterp spec fn utc_text(ts: i64, fmt: Seq<char>) -> Option<Seq<char>>;

/// Whether an instant lies in the years 0 to 9999.
pub open spec fn four_digit_year(ts: i64) -> bool {
    -62_167_219_200 <= ts <= 253_402_300_799
}

/// Whether a text shows an instant in a shape: its day, and where the shape has one, its time.
pub open spec fn shows(t: Option<Seq<char>>, ts: i64, style: TimeStyle) -> bool {
    let secs = ts as int % 86400;
    exists|y: i32, m: u32, d: u32|
        {
            &&& 0 <= y <= 9999
            &&& starts_day((ts - secs) as i64, m, d)
            &&& #[trigger] unix_date_of(y, m, d) == Some((ts - secs) as i64)
            &&& t == Some(written(style, y, m, d, secs))
        }
}

/// Whether a text shows an instant in the shape that a pattern stands for.
pub open spec fn shows_under(t: Option<Seq<char>>, ts: i64, fmt: Seq<char>) -> bool {
    forall|style: TimeStyle| #[trigger] pattern(style) == fmt ==> shows(t, ts, style)
}

/// `chrono::DateTime::from_timestamp` and `DateTime::format`: a function of the time stamp and
/// the pattern, which has a text for every instant of the years 0 to 9999. The five patterns
/// write year, month, day, hour, minute and second of such an instant with four digits for the
/// year and two for each of the others. Of other years, only that the text depends on nothing
/// else is said.
#[verifier::external_body]
fn format_utc(ts: i64, fmt: &str) -> (r: Option<String>)
    requires
        exists|style: TimeStyle| #[trigger] pattern(style) == fmt@,
    ensures
        r.deep_view() == utc_text(ts, fmt@),
        four_digit_year(ts) ==> shows_under(r.deep_view(), ts, fmt@),
{
    chrono::DateTime::from_timestamp(ts, 0).map(|t| t.format(fmt).to_string())
}

/// Whether a day of the years 0 to 9999 is that of an instant.
pub open spec fn is_day_of(ts: i64, y: i32, m: u32, d: u32) -> bool {
    0 <= y <= 9999 && unix_date_of(y, m, d) == Some((ts - ts as int % 86400) as i64)
}

/// An instant of the years 0 to 9999 in a shape.
pub open spec fn shown(ts: i64, style: TimeStyle) -> Seq<char> {
    let (y, m, d) = choose|y: i32, m: u32, d: u32| #[trigger] is_day_of(ts, y, m, d);
    written(style, y, m, d, ts as int % 86400)
}

proof fn lemma_shown(ts: i64, y: i32, m: u32, d: u32, style: TimeStyle)
    requires
        is_day_of(ts, y, m, d),
    ensures
        shown(ts, style) == written(style, y, m, d, ts as int % 86400),
{
    let (y2, m2, d2) = choose|y: i32, m: u32, d: u32| #[trigger] is_day_of(ts, y, m, d);
    law_days_are_apart(y, m, d, y2, m2, d2);
}

proof fn lemma_shows(t: Option<Seq<char>>, ts: i64, style: TimeStyle)
    requires
        shows(t, ts, style),
    ensures
        t == Some(shown(ts, style)),
{
    let secs = ts as int % 86400;
    let (y, m, d) = choose|y: i32, m: u32, d: u32|
        {
            &&& 0 <= y <= 9999
            &&& starts_day((ts - secs) as i64, m, d)
            &&& #[trigger] unix_date_of(y, m, d) == Some((ts - secs) as i64)
            &&& t == Some(written(style, y, m, d, secs))
        };
    lemma_shown(ts, y, m, d, style);
}

/// The text of an instant in a shape; out of range, that of the epoch.
pub open spec fn instant_text(written: Option<Seq<char>>, epoch: Option<Seq<char>>) -> Seq<char> {
    match (written, epoch) {
        (Some(t), _) => t,
        (None, Some(e)) => e,
        (None, None) => Seq::empty(),
    }
}

/// The text of an instant in a shape: that of the epoch where the instant is out of range.
pub open spec fn emitted(ts: i64, style: TimeStyle) -> Seq<char> {
    if four_digit_year(ts) {
        shown(ts, style)
    } else {
        instant_text(utc_text(ts, pattern(style)), Some(shown(0, style)))
    }
}

/// Picks the text of an instant, or that of the epoch where it has none.
pub fn or_epoch(written: Option<String>, epoch: Option<String>) -> (r: String)
    ensures
        r@ == instant_text(written.deep_view(), epoch.deep_view()),
{
    match written {
        Some(t) => t,
        None => match epoch {
            Some(e) => e,
            None => String::new(),
        },
    }
}

fn emit(ts: i64, style: TimeStyle) -> (r: String)
    ensures
        r@ == emitted(ts, style),
        four_digit_year(ts) ==> shows(Some(r@), ts, style),
{
    let fmt = match style {
        TimeStyle::BasicDate => "%Y%m%d",
        TimeStyle::BasicTime => "%Y%m%dT%H%M%SZ",
        TimeStyle::IsoDate => "%Y-%m-%d",
        TimeStyle::IsoTime => "%Y-%m-%dT%H:%M:%SZ",
        TimeStyle::Minute => "%Y-%m-%d %H:%M UTC",
    };
    assert(fmt@ == pattern(style));
    let written = format_utc(ts, fmt);
    let epoch = format_utc(0, fmt);
    proof {
        assert(four_digit_year(0));
        assert(shows(epoch.deep_view(), 0, style));
        lemma_shows(epoch.deep_view(), 0, style);
        if four_digit_year(ts) {
            assert(shows(written.deep_view(), ts, style));
            lemma_shows(written.deep_view(), ts, style);
        }
    }
    or_epoch(written, epoch)
}

/// The iCalendar shape of a whole day and of a time.
pub open spec fn basic_style(all_day: bool) -> TimeStyle {
    if all_day {
        TimeStyle::BasicDate
    } else {
        TimeStyle::BasicTime
    }
}

/// The ISO 8601 shape of a whole day and of a time.
pub open spec fn iso_style(all_day: bool) -> TimeStyle {
    if all_day {
        TimeStyle::IsoDate
    } else {
        TimeStyle::IsoTime
    }
}

/// The iCalendar text of an instant: a date for a whole day, else a UTC time.
pub open spec fn basic_text(ts: i64, all_day: bool) -> Seq<char> {
    emitted(ts, basic_style(all_day))
}

/// Writes an instant as iCalendar has it.
pub fn emit_dt(ts: Timestamp, all_day: bool) -> (r: String)
    ensures
        r@ == basic_text(ts.0, all_day),
        four_digit_year(ts.0) ==> dt_reading(r@, all_day) == Some(
            (day_or_instant(ts.0, all_day), all_day),
        ),
{
    let style = if all_day { TimeStyle::BasicDate } else { TimeStyle::BasicTime };
    let r = emit(ts.0, style);
    proof {
        if four_digit_year(ts.0) {
            lemma_basic_text_reads_back(r@, ts.0, all_day);
        }
    }
    r
}

/// Writes an instant for people, to the minute.
pub fn minute_text(ts: Timestamp) -> (r: String)
    ensures
        r@ == emitted(ts.0, TimeStyle::Minute),
        four_digit_year(ts.0) ==> shows(Some(r@), ts.0, TimeStyle::Minute),
{
    emit(ts.0, TimeStyle::Minute)
}

/// An instant, or the start of its day.
pub open spec fn day_or_instant(ts: i64, all_day: bool) -> i64 {
    if all_day {
        (ts - ts as int % 86400) as i64
    } else {
        ts
    }
}

/// The text of an instant for the structured interface: a date for a whole day, else a UTC time.
pub open spec fn iso_text(ts: i64, all_day: bool) -> Seq<char> {
    emitted(ts, iso_style(all_day))
}

/// Writes an instant for the structured interface.
pub fn ts_to_iso(ts: Timestamp, all_day: bool) -> (r: String)
    ensures
        r@ == iso_text(ts.0, all_day),
        four_digit_year(ts.0) ==> shows(
            Some(r@),
            ts.0,
            iso_style(all_day),
        ),
{
    let style = if all_day { TimeStyle::IsoDate } else { TimeStyle::IsoTime };
    emit(ts.0, style)
}

proof fn lemma_two_digits(n: int)
    requires
        0 <= n < 100,
    ensures
        part_of(two_digits(n)) == Some(n as u32),
        all_digits(two_digits(n)),
        two_digits(n).len() == 2,
{
    let t = two_digits(n);
    assert(decimal::is_digit(t[0]) && decimal::is_digit(t[1]));
    assert(t.drop_last() =~= seq![t[0]]);
    assert(t.drop_last().drop_last() =~= Seq::<char>::empty());
    reveal_with_fuel(decimal::digits_value, 4);
    assert(decimal::digits_value(t) == n);
}

proof fn lemma_push_digit(s: Seq<char>, d: int)
    requires
        0 <= d <= 9,
    ensures
        decimal::digits_value(s.push(digit_char(d))) == decimal::digits_value(s) * 10 + d,
        all_digits(s) ==> all_digits(s.push(digit_char(d))),
{
    let t = s.push(digit_char(d));
    assert(t.drop_last() =~= s);
    assert(decimal::is_digit(digit_char(d)));
}

proof fn lemma_four_digits(n: int)
    requires
        0 <= n <= 9999,
    ensures
        year_of(four_digits(n)) == Some(n as i32),
        all_digits(four_digits(n)),
        four_digits(n).len() == 4,
{
    let (a, b, c, d) = (n / 100 / 10 % 10, n / 100 % 10, n % 100 / 10 % 10, n % 100 % 10);
    assert(n == a * 1000 + b * 100 + c * 10 + d && 0 <= a <= 9 && 0 <= b <= 9 && 0 <= c <= 9 && 0
        <= d <= 9) by (nonlinear_arith)
        requires
            0 <= n <= 9999,
            a == n / 100 / 10 % 10,
            b == n / 100 % 10,
            c == n % 100 / 10 % 10,
            d == n % 100 % 10,
    ;
    let e = Seq::<char>::empty();
    let s1 = e.push(digit_char(a));
    let s2 = s1.push(digit_char(b));
    let s3 = s2.push(digit_char(c));
    lemma_push_digit(e, a);
    lemma_push_digit(s1, b);
    lemma_push_digit(s2, c);
    lemma_push_digit(s3, d);
    let t = four_digits(n);
    assert(t =~= s3.push(digit_char(d)));
    assert(decimal::digits_value(t) == n);
    assert(decimal::is_digit(t[0]));
}

/// What stands before and after no white space is its own trimmed form.
proof fn lemma_trimmed(s: Seq<char>)
    requires
        s.len() > 0,
        !text::is_white(s[0]),
        !text::is_white(s.last()),
    ensures
        trimmed(s) == s,
{
}

#[verifier::spinoff_prover]
#[verifier::rlimit(40)]
proof fn lemma_basic_text_reads_back(t: Seq<char>, ts: i64, all_day: bool)
    requires
        four_digit_year(ts),
        shows(Some(t), ts, basic_style(all_day)),
    ensures
        dt_reading(t, all_day) == Some((day_or_instant(ts, all_day), all_day)),
{
    let style = basic_style(all_day);
    let secs = ts as int % 86400;
    let (y, m, d) = choose|y: i32, m: u32, d: u32|
        {
            &&& 0 <= y <= 9999
            &&& starts_day((ts - secs) as i64, m, d)
            &&& #[trigger] unix_date_of(y, m, d) == Some((ts - secs) as i64)
            &&& Some(t) == Some(written(style, y, m, d, secs))
        };
    lemma_four_digits(y as int);
    lemma_two_digits(m as int);
    lemma_two_digits(d as int);
    assert(t.subrange(0, 4) =~= four_digits(y as int));
    assert(t.subrange(4, 6) =~= two_digits(m as int));
    assert(t.subrange(6, 8) =~= two_digits(d as int));
    lemma_trimmed(t);
    if !all_day {
        let (h, mi, s) = (secs / 3600, secs / 60 % 60, secs % 60);
        lemma_two_digits(h);
        lemma_two_digits(mi);
        lemma_two_digits(s);
        assert(t.subrange(9, 11) =~= two_digits(h));
        assert(t.subrange(11, 13) =~= two_digits(mi));
        assert(t.subrange(13, 15) =~= two_digits(s));
        assert(t[8] == 'T');
        assert(secs == 3600 * h + 60 * mi + s);
    }
}

/// The midnight of the day that a text names under a chrono pattern.
pub uninterp spec fn day_of_text(s: Seq<char>, fmt: Seq<char>) -> Option<i64>;

/// The instant that an RFC 3339 text names, in whole seconds.
pub uninterp spec fn rfc3339_of(s: Seq<char>) -> Option<i64>;

/// The instant that a text with an offset names under a chrono pattern, in whole seconds.
pub uninterp spec fn offset_time_of(s: Seq<char>, fmt: Seq<char>) -> Option<i64>;

/// The instant that a text without an offset names under a chrono pattern, taken as UTC, in
/// whole seconds.
pub uninterp spec fn naive_time_of(s: Seq<char>, fmt: Seq<char>) -> Option<i64>;

/// Whether a reading of an extended ISO 8601 text of the years 0 to 9999 is the instant that the
/// text shows.
pub open spec fn reads_iso(r: Option<i64>, s: Seq<char>, style: TimeStyle) -> bool {
    forall|y: i32, m: u32, d: u32, secs: int|
        #![trigger unix_date_of(y, m, d), written(style, y, m, d, secs)]
        0 <= y <= 9999 && 0 <= secs < 86400 && unix_date_of(y, m, d) is Some && s == written(
            style,
            y,
            m,
            d,
            secs,
        ) ==> r == Some(
            (unix_date_of(y, m, d)->Some_0 + if style == TimeStyle::IsoTime {
                secs
            } else {
                0
            }) as i64,
        )
}

/// Whether a text shows a day, and where the shape has one, a time of it.
pub open spec fn shows_parts(
    s: Seq<char>,
    style: TimeStyle,
    y: i32,
    m: u32,
    d: u32,
    secs: int,
) -> bool {
    0 <= y <= 9999 && 0 <= secs < 86400 && unix_date_of(y, m, d) is Some && s == written(
        style,
        y,
        m,
        d,
        secs,
    )
}

/// The instant that an extended ISO 8601 text of the years 0 to 9999 shows: nothing for any other
/// text.
pub open spec fn shown_in(s: Seq<char>, style: TimeStyle) -> Option<i64> {
    if exists|y: i32, m: u32, d: u32, secs: int| shows_parts(s, style, y, m, d, secs) {
        let (y, m, d, secs) = choose|y: i32, m: u32, d: u32, secs: int|
            shows_parts(s, style, y, m, d, secs);
        Some(
            (unix_date_of(y, m, d)->Some_0 + if style == TimeStyle::IsoTime {
                secs
            } else {
                0
            }) as i64,
        )
    } else {
        None
    }
}

/// The start of the day that a text names: as it is written, or as chrono reads it under year,
/// month and day with hyphens between them.
pub open spec fn day_reading(s: Seq<char>) -> Option<i64> {
    match shown_in(s, TimeStyle::IsoDate) {
        Some(t) => Some(t),
        None => day_of_text(s, "%Y-%m-%d"@),
    }
}

/// The instant that a text names: as it is written, or as chrono reads it by RFC 3339.
pub open spec fn rfc_reading(s: Seq<char>) -> Option<i64> {
    match shown_in(s, TimeStyle::IsoTime) {
        Some(t) => Some(t),
        None => rfc3339_of(s),
    }
}

proof fn lemma_reads_iso(r: Option<i64>, s: Seq<char>, style: TimeStyle)
    requires
        reads_iso(r, s, style),
    ensures
        shown_in(s, style) is Some ==> r == shown_in(s, style),
{
    if shown_in(s, style) is Some {
        let (y, m, d, secs) = choose|y: i32, m: u32, d: u32, secs: int|
            shows_parts(s, style, y, m, d, secs);
        assert(unix_date_of(y, m, d) is Some && s == written(style, y, m, d, secs));
    }
}

fn read_day(s: &str) -> (r: Option<i64>)
    ensures
        r == day_reading(s@),
        reads_iso(r, s@, TimeStyle::IsoDate),
{
    let r = parse_day(s, "%Y-%m-%d");
    proof {
        lemma_reads_iso(r, s@, TimeStyle::IsoDate);
    }
    r
}

fn read_rfc3339(s: &str) -> (r: Option<i64>)
    ensures
        r == rfc_reading(s@),
        reads_iso(r, s@, TimeStyle::IsoTime),
{
    let r = parse_rfc3339(s);
    proof {
        lemma_reads_iso(r, s@, TimeStyle::IsoTime);
    }
    r
}

/// `chrono::NaiveDate::parse_from_str`: a function of the text and the pattern. Under year,
/// month and day with hyphens between them it reads back the dates that the same pattern writes.
#[verifier::external_body]
fn parse_day(s: &str, fmt: &str) -> (r: Option<i64>)
    ensures
        r == day_of_text(s@, fmt@),
        fmt@ == pattern(TimeStyle::IsoDate) ==> reads_iso(r, s@, TimeStyle::IsoDate),
{
    let day = chrono::NaiveDate::parse_from_str(s, fmt).ok()?;
    Some(day.and_time(chrono::NaiveTime::MIN).and_utc().timestamp())
}

/// `chrono::DateTime::parse_from_rfc3339`: a function of the text, which reads back the UTC
/// times of four-digit years that end in `Z`.
#[verifier::external_body]
fn parse_rfc3339(s: &str) -> (r: Option<i64>)
    ensures
        r == rfc3339_of(s@),
        reads_iso(r, s@, TimeStyle::IsoTime),
{
    chrono::DateTime::parse_from_rfc3339(s).ok().map(|t| t.timestamp())
}

/// `chrono::DateTime::parse_from_str`: a function of the text and the pattern.
#[verifier::external_body]
fn parse_offset_time(s: &str, fmt: &str) -> (r: Option<i64>)
    ensures
        r == offset_time_of(s@, fmt@),
{
    chrono::DateTime::parse_from_str(s, fmt).ok().map(|t| t.timestamp())
}

/// `chrono::NaiveDateTime::parse_from_str`: a function of the text and the pattern.
#[verifier::external_body]
fn parse_naive_time(s: &str, fmt: &str) -> (r: Option<i64>)
    ensures
        r == naive_time_of(s@, fmt@),
{
    chrono::NaiveDateTime::parse_from_str(s, fmt).ok().map(|t| t.and_utc().timestamp())
}

/// Whether a text has the outline of a date: ten bytes with hyphens behind the year and the
/// month.
pub open spec fn date_shaped(v: Seq<char>) -> bool {
    let b = vstd::utf8::encode_utf8(v);
    b.len() == 10 && b[4] == 45 && b[7] == 45
}

/// What an ISO 8601 text means, given how each reading of it came out. A date needs its outline
/// and its reading. Any other text must fill the shape of a time; the readings count in order:
/// RFC 3339, an offset without a colon, no offset.
pub open spec fn iso_choice(
    v: Seq<char>,
    day: Option<i64>,
    rfc: Option<i64>,
    offset: Option<i64>,
    naive: Option<i64>,
) -> Option<(i64, bool)> {
    if date_shaped(v) {
        match day {
            Some(t) => Some((t, true)),
            None => None,
        }
    } else if text::byte_length(v) < 19 {
        None
    } else {
        match (rfc, offset, naive) {
            (Some(t), _, _) => Some((t, false)),
            (None, Some(t), _) => Some((t, false)),
            (None, None, Some(t)) => Some((t, false)),
            (None, None, None) => None,
        }
    }
}

/// The instant that an ISO 8601 text names, and whether it is a date.
pub open spec fn iso_reading(value: Seq<char>) -> Option<(i64, bool)> {
    let v = trimmed(value);
    iso_choice(
        v,
        day_reading(v),
        rfc_reading(v),
        offset_time_of(v, "%Y-%m-%dT%H:%M:%S%.f%z"@),
        match text::byte_prefix_of(v, 19) {
            Some(p) => naive_time_of(p, "%Y-%m-%dT%H:%M:%S"@),
            None => None,
        },
    )
}

fn is_date_shaped(v: &str) -> (r: bool)
    ensures
        r == date_shaped(v@),
{
    let b = v.as_bytes();
    b.len() == 10 && b[4] == 45 && b[7] == 45
}

/// Weighs the readings of an ISO 8601 text.
pub fn choose_iso(
    v: &str,
    day: Option<i64>,
    rfc: Option<i64>,
    offset: Option<i64>,
    naive: Option<i64>,
) -> (r: Option<(i64, bool)>)
    ensures
        r == iso_choice(v@, day, rfc, offset, naive),
{
    if is_date_shaped(v) {
        return match day {
            Some(t) => Some((t, true)),
            None => None,
        };
    }
    if text::byte_len(v) < 19 {
        return None;
    }
    match (rfc, offset, naive) {
        (Some(t), _, _) => Some((t, false)),
        (None, Some(t), _) => Some((t, false)),
        (None, None, Some(t)) => Some((t, false)),
        (None, None, None) => None,
    }
}

/// Reads an ISO 8601 time, or a bare date, into seconds since the Unix epoch, with a mark for a
/// date. Offsets are applied; a time without one is UTC.
pub fn parse_iso(value: &str) -> (r: Option<(i64, bool)>)
    ensures
        r == iso_reading(value@),
        forall|ts: i64, all_day: bool|
            four_digit_year(ts) && #[trigger] shows(
                Some(value@),
                ts,
                iso_style(all_day),
            ) ==> r == Some((day_or_instant(ts, all_day), all_day)),
{
    let t = text::trim(value);
    let v = t.as_str();
    let day = read_day(v);
    let rfc = read_rfc3339(v);
    let offset = parse_offset_time(v, "%Y-%m-%dT%H:%M:%S%.f%z");
    let naive = match text::byte_prefix(v, 19) {
        Some(p) => parse_naive_time(p.as_str(), "%Y-%m-%dT%H:%M:%S"),
        None => None,
    };
    proof {
        assert forall|ts: i64, all_day: bool|
            four_digit_year(ts) && #[trigger] shows(
                Some(value@),
                ts,
                iso_style(all_day),
            ) implies iso_choice(v@, day, rfc, offset, naive) == Some(
            (day_or_instant(ts, all_day), all_day),
        ) by {
            let secs = ts as int % 86400;
            let (y, m, d) = choose|y: i32, m: u32, d: u32|
                {
                    &&& 0 <= y <= 9999
                    &&& starts_day((ts - secs) as i64, m, d)
                    &&& #[trigger] unix_date_of(y, m, d) == Some((ts - secs) as i64)
                    &&& Some(value@) == Some(written(iso_style(all_day), y, m, d, secs))
                };
            lemma_iso_text(y, m, d, secs, all_day);
            assert(v@ == value@);
        }
    }
    choose_iso(v, day, rfc, offset, naive)
}

/// A written ISO 8601 text has no white space around it, and as many bytes as characters.
proof fn lemma_iso_text(y: i32, m: u32, d: u32, secs: int, all_day: bool)
    requires
        0 <= y <= 9999,
        1 <= m <= 12,
        1 <= d <= 31,
        0 <= secs < 86400,
    ensures
        ({
            let t = written(iso_style(all_day), y, m, d, secs);
            &&& trimmed(t) == t
            &&& date_shaped(t) == all_day
            &&& !all_day ==> text::byte_length(t) >= 19
        }),
{
    let t = written(iso_style(all_day), y, m, d, secs);
    lemma_iso_date_is_plain(y, m, d);
    if !all_day {
        lemma_iso_time_is_plain(y, m, d, secs / 3600, secs / 60 % 60, secs % 60);
    }
    lemma_trimmed(t);
    assert(vstd::utf8::is_ascii_chars(t));
    vstd::utf8::is_ascii_chars_encode_utf8(t);
}

/// A text of ASCII characters other than white space.
spec fn plain(s: Seq<char>) -> bool {
    forall|i: int| 0 <= i < s.len() ==> (#[trigger] s[i] as u32) < 128 && !text::is_white(s[i])
}

proof fn lemma_plain(a: Seq<char>, b: Seq<char>)
    requires
        plain(a),
        plain(b) || all_digits(b),
    ensures
        plain(a + b),
{
    assert forall|i: int| 0 <= i < (a + b).len() implies (#[trigger] (a + b)[i] as u32) < 128
        && !text::is_white((a + b)[i]) by {
        if i >= a.len() {
            assert((a + b)[i] == b[i - a.len()]);
            assert(all_digits(b) ==> decimal::is_digit(b[i - a.len()]));
        }
    }
}

proof fn lemma_iso_date_is_plain(y: i32, m: u32, d: u32)
    requires
        0 <= y <= 9999,
        1 <= m <= 12,
        1 <= d <= 31,
    ensures
        plain(iso_date(y, m, d)),
        iso_date(y, m, d).len() == 10,
        iso_date(y, m, d)[4] == '-',
        iso_date(y, m, d)[7] == '-',
{
    lemma_four_digits(y as int);
    lemma_two_digits(m as int);
    lemma_two_digits(d as int);
    let e = Seq::<char>::empty();
    let a = four_digits(y as int);
    lemma_plain(e, a);
    assert(e + a =~= a);
    let b = a + seq!['-'] + two_digits(m as int);
    lemma_plain(a, seq!['-']);
    lemma_plain(a + seq!['-'], two_digits(m as int));
    lemma_plain(b, seq!['-']);
    lemma_plain(b + seq!['-'], two_digits(d as int));
}

proof fn lemma_iso_time_is_plain(y: i32, m: u32, d: u32, h: int, mi: int, s: int)
    requires
        0 <= y <= 9999,
        1 <= m <= 12,
        1 <= d <= 31,
        0 <= h < 100,
        0 <= mi < 100,
        0 <= s < 100,
    ensures
        plain(iso_time(y, m, d, h, mi, s)),
        iso_time(y, m, d, h, mi, s).len() == 20,
{
    let day = iso_date(y, m, d);
    lemma_iso_date_is_plain(y, m, d);
    lemma_two_digits(h);
    lemma_two_digits(mi);
    lemma_two_digits(s);
    lemma_plain(day, seq!['T']);
    lemma_plain(day + seq!['T'], two_digits(h));
    let a = day + seq!['T'] + two_digits(h);
    lemma_plain(a, seq![':']);
    lemma_plain(a + seq![':'], two_digits(mi));
    let b = a + seq![':'] + two_digits(mi);
    lemma_plain(b, seq![':']);
    lemma_plain(b + seq![':'], two_digits(s));
    let c = b + seq![':'] + two_digits(s);
    lemma_plain(c, seq!['Z']);
    assert(iso_time(y, m, d, h, mi, s) == c + seq!['Z']);
}

/// The instant that an RFC 3339 text, or else a bare date, names.
pub open spec fn iso_ts_reading(v: Seq<char>) -> Option<i64> {
    match rfc_reading(v) {
        Some(t) => Some(t),
        None => day_reading(v),
    }
}

/// Reads an RFC 3339 time or a bare date.
pub fn parse_iso_ts(v: &str) -> (r: Option<Timestamp>)
    ensures
        r == (match iso_ts_reading(v@) {
            Some(t) => Some(Timestamp(t)),
            None => None,
        }),
{
    match read_rfc3339(v) {
        Some(t) => Some(Timestamp(t)),
        None => match read_day(v) {
            Some(t) => Some(Timestamp(t)),
            None => None,
        },
    }
}

/// The parts of a date or time can be read off its text.
#[verifier::spinoff_prover]
#[verifier::rlimit(30)]
proof fn lemma_iso_parts(y: i32, m: u32, d: u32, secs: int, all_day: bool)
    requires
        0 <= y <= 9999 && 1 <= m <= 12 && 1 <= d <= 31 && 0 <= secs < 86400,
    ensures
        ({
            let t = written(iso_style(all_day), y, m, d, secs);
            &&& year_of(t.subrange(0, 4)) == Some(y)
            &&& part_of(t.subrange(5, 7)) == Some(m)
            &&& part_of(t.subrange(8, 10)) == Some(d)
            &&& !all_day ==> part_of(t.subrange(11, 13)) == Some((secs / 3600) as u32)
            &&& !all_day ==> part_of(t.subrange(14, 16)) == Some((secs / 60 % 60) as u32)
            &&& !all_day ==> part_of(t.subrange(17, 19)) == Some((secs % 60) as u32)
        }),
{
    let t = written(iso_style(all_day), y, m, d, secs);
    let (h, mi, s) = (secs / 3600, secs / 60 % 60, secs % 60);
    lemma_four_digits(y as int);
    lemma_two_digits(m as int);
    lemma_two_digits(d as int);
    lemma_two_digits(h);
    lemma_two_digits(mi);
    lemma_two_digits(s);
    assert(t.subrange(0, 4) =~= four_digits(y as int));
    assert(t.subrange(5, 7) =~= two_digits(m as int));
    assert(t.subrange(8, 10) =~= two_digits(d as int));
    if !all_day {
        assert(t.subrange(11, 13) =~= two_digits(h));
        assert(t.subrange(14, 16) =~= two_digits(mi));
        assert(t.subrange(17, 19) =~= two_digits(s));
    }
}

proof fn lemma_same_clock(a: int, b: int)
    requires
        0 <= a < 86400,
        0 <= b < 86400,
    ensures
        (a / 3600) as u32 == (b / 3600) as u32 && (a / 60 % 60) as u32 == (b / 60 % 60) as u32
            && (a % 60) as u32 == (b % 60) as u32 ==> a == b,
{
    assert(a == 3600 * (a / 3600) + 60 * (a / 60 % 60) + a % 60);
    assert(b == 3600 * (b / 3600) + 60 * (b / 60 % 60) + b % 60);
}

#[verifier::spinoff_prover]
#[verifier::rlimit(30)]
proof fn lemma_same_parts(
    y: i32,
    m: u32,
    d: u32,
    secs: int,
    y2: i32,
    m2: u32,
    d2: u32,
    secs2: int,
    all_day: bool,
)
    requires
        0 <= y <= 9999 && 1 <= m <= 12 && 1 <= d <= 31 && 0 <= secs < 86400,
        0 <= y2 <= 9999 && 1 <= m2 <= 12 && 1 <= d2 <= 31 && 0 <= secs2 < 86400,
        written(iso_style(all_day), y, m, d, secs) == written(
            iso_style(all_day),
            y2,
            m2,
            d2,
            secs2,
        ),
    ensures
        y == y2 && m == m2 && d == d2 && (!all_day ==> secs == secs2),
{
    lemma_iso_parts(y, m, d, secs, all_day);
    lemma_iso_parts(y2, m2, d2, secs2, all_day);
    lemma_same_clock(secs, secs2);
}

proof fn lemma_instant(y: i32, m: u32, d: u32, secs: int)
    requires
        0 <= y <= 9999,
        0 <= secs < 86400,
        unix_date_of(y, m, d) is Some,
    ensures
        ({
            let ts = (unix_date_of(y, m, d)->Some_0 + secs) as i64;
            four_digit_year(ts) && ts as int % 86400 == secs && is_day_of(ts, y, m, d)
        }),
{
    let day = unix_date_of(y, m, d)->Some_0;
    lemma_starts_day(y, m, d);
    lemma_day_of_year(y as int, m as int, d as int);
    if y < 9999 {
        lemma_later_year(y as int, 9999);
    }
    if y > 0 {
        lemma_later_year(0, y as int);
    }
    assert(days_before_year(0) == 0 && days_before_year(9999) == 3_652_060);
    assert(days_before_year(1970) == 719_528);
}

proof fn lemma_shown_in(y: i32, m: u32, d: u32, secs: int, all_day: bool)
    requires
        0 <= y <= 9999,
        0 <= secs < 86400,
        unix_date_of(y, m, d) is Some,
    ensures
        shown_in(written(iso_style(all_day), y, m, d, secs), iso_style(all_day)) == Some(
            (unix_date_of(y, m, d)->Some_0 + if all_day {
                0
            } else {
                secs
            }) as i64,
        ),
{
    let style = iso_style(all_day);
    let s = written(style, y, m, d, secs);
    assert(shows_parts(s, style, y, m, d, secs));
    let (y2, m2, d2, secs2) = choose|y: i32, m: u32, d: u32, secs: int|
        shows_parts(s, style, y, m, d, secs);
    lemma_starts_day(y, m, d);
    lemma_starts_day(y2, m2, d2);
    lemma_same_parts(y, m, d, secs, y2, m2, d2, secs2, all_day);
}

proof fn lemma_digits_no_comma(a: Seq<char>, b: Seq<char>)
    requires
        !a.contains(','),
        all_digits(b) || b == seq!['T'] || b == seq!['Z'],
    ensures
        !(a + b).contains(','),
{
    if (a + b).contains(',') {
        let i = choose|i: int| 0 <= i < (a + b).len() && (a + b)[i] == ',';
        if i < a.len() {
            assert(a[i] == ',');
        } else {
            assert(b[i - a.len()] == ',');
        }
    }
}

proof fn lemma_no_comma(y: i32, m: u32, d: u32, secs: int, all_day: bool)
    requires
        0 <= y <= 9999 && 1 <= m <= 12 && 1 <= d <= 31 && 0 <= secs < 86400,
    ensures
        !written(basic_style(all_day), y, m, d, secs).contains(','),
{
    let (h, mi, s) = (secs / 3600, secs / 60 % 60, secs % 60);
    lemma_four_digits(y as int);
    lemma_two_digits(m as int);
    lemma_two_digits(d as int);
    lemma_two_digits(h);
    lemma_two_digits(mi);
    lemma_two_digits(s);
    let e = Seq::<char>::empty();
    let a = four_digits(y as int);
    lemma_digits_no_comma(e, a);
    assert(e + a =~= a);
    let b = a + two_digits(m as int);
    lemma_digits_no_comma(a, two_digits(m as int));
    let c = b + two_digits(d as int);
    lemma_digits_no_comma(b, two_digits(d as int));
    let t = c + seq!['T'];
    lemma_digits_no_comma(c, seq!['T']);
    lemma_digits_no_comma(t, two_digits(h));
    lemma_digits_no_comma(t + two_digits(h), two_digits(mi));
    lemma_digits_no_comma(t + two_digits(h) + two_digits(mi), two_digits(s));
    lemma_digits_no_comma(t + two_digits(h) + two_digits(mi) + two_digits(s), seq!['Z']);
}

/// Whether a text is a date, or a UTC time, as the structured interface writes it: `YYYY-MM-DD`,
/// or `YYYY-MM-DDTHH:MM:SSZ`, of a day that exists.
pub open spec fn is_iso(s: Seq<char>, all_day: bool) -> bool {
    exists|y: i32, m: u32, d: u32, secs: int|
        shows_parts(s, iso_style(all_day), y, m, d, secs)
}

/// A date or UTC time of the structured interface keeps its text: it names an instant whose text
/// it is, and the iCalendar text of that instant names the same instant.
pub proof fn law_time_text_comes_back(s: Seq<char>, all_day: bool)
    requires
        is_iso(s, all_day),
    ensures
        iso_reading(s) matches Some((ts, date)) && date == all_day && iso_text(ts, all_day) == s
            && dt_reading(basic_text(ts, all_day), all_day) == Some((ts, all_day)) && !basic_text(
            ts,
            all_day,
        ).contains(','),
{
    let style = iso_style(all_day);
    let (y, m, d, part) = choose|y: i32, m: u32, d: u32, secs: int|
        shows_parts(s, style, y, m, d, secs);
    let day = unix_date_of(y, m, d)->Some_0;
    let secs = if all_day { 0 } else { part };
    let ts = (day + secs) as i64;
    lemma_starts_day(y, m, d);
    lemma_instant(y, m, d, secs);
    lemma_shown_in(y, m, d, part, all_day);
    lemma_iso_text(y, m, d, part, all_day);
    assert(iso_reading(s) == Some((ts, all_day)));
    lemma_shown(ts, y, m, d, style);
    lemma_shown(ts, y, m, d, basic_style(all_day));
    assert(iso_text(ts, all_day) == s);
    assert(shows(Some(basic_text(ts, all_day)), ts, basic_style(all_day)));
    lemma_basic_text_reads_back(basic_text(ts, all_day), ts, all_day);
    lemma_no_comma(y, m, d, secs, all_day);
}

proof fn lemma_year_exists(n: int, from: int) -> (y: int)
    requires
        0 <= from < 10000,
        days_before_year(from) <= n < days_before_year(10000),
    ensures
        from <= y < 10000,
        days_before_year(y) <= n < days_before_year(y + 1),
    decreases 10000 - from,
{
    if n < days_before_year(from + 1) {
        from
    } else {
        lemma_year_exists(n, from + 1)
    }
}

proof fn lemma_month_exists(y: int, n: int, from: int) -> (m: int)
    requires
        1 <= from <= 12,
        days_before_month(y, from) <= n < (if is_leap(y) {
            366int
        } else {
            365
        }),
    ensures
        from <= m <= 12,
        days_before_month(y, m) <= n < days_before_month(y, m) + month_days(y, m),
    decreases 12 - from,
{
    if n < days_before_month(y, from) + month_days(y, from) {
        from
    } else {
        reveal_with_fuel(days_before_month, 13);
        lemma_month_exists(y, n, from + 1)
    }
}

/// Every instant of the years 0 to 9999 has a day.
proof fn lemma_day_exists(ts: i64) -> (r: (i32, u32, u32))
    requires
        four_digit_year(ts),
    ensures
        is_day_of(ts, r.0, r.1, r.2),
        starts_day((ts - ts as int % 86400) as i64, r.1, r.2),
{
    let start = ts - ts as int % 86400;
    let n = start / 86400 + 719_528;
    assert(start == 86400 * (n - 719_528));
    assert(days_before_year(0) == 0 && days_before_year(10000) == 3_652_425);
    assert(days_before_year(1970) == 719_528);
    let y = lemma_year_exists(n, 0);
    lemma_next_year(y);
    let k = n - days_before_year(y);
    reveal_with_fuel(days_before_month, 2);
    let m = lemma_month_exists(y, k, 1);
    let d = k - days_before_month(y, m) + 1;
    assert(unix_date_of(y as i32, m as u32, d as u32) == Some(start as i64));
    (y as i32, m as u32, d as u32)
}

/// The text of an instant of the years 0 to 9999 names the instant again, as a date of the
/// structured interface names the start of its day; and so does its iCalendar text.
pub proof fn law_instants_have_texts(ts: i64, all_day: bool)
    requires
        -62_167_219_200 <= ts <= 253_402_300_799,
    ensures
        is_iso(iso_text(ts, all_day), all_day),
        iso_reading(iso_text(ts, all_day)) == Some(
            (
                if all_day {
                    (ts - ts as int % 86400) as i64
                } else {
                    ts
                },
                all_day,
            ),
        ),
        dt_reading(basic_text(ts, all_day), all_day) == Some(
            (
                if all_day {
                    (ts - ts as int % 86400) as i64
                } else {
                    ts
                },
                all_day,
            ),
        ),
        !basic_text(ts, all_day).contains(','),
        !all_day ==> iso_ts_reading(iso_text(ts, all_day)) == Some(ts),
{
    let (y, m, d) = lemma_day_exists(ts);
    lemma_iso_instant(ts, all_day, y, m, d);
    lemma_iso_bound(ts, y, m, d);
    lemma_basic_instant(ts, all_day, y, m, d);
}

#[verifier::spinoff_prover]
#[verifier::rlimit(40)]
proof fn lemma_iso_instant(ts: i64, all_day: bool, y: i32, m: u32, d: u32)
    requires
        four_digit_year(ts),
        is_day_of(ts, y, m, d),
        starts_day((ts - ts as int % 86400) as i64, m, d),
    ensures
        is_iso(iso_text(ts, all_day), all_day),
        iso_reading(iso_text(ts, all_day)) == Some((day_or_instant(ts, all_day), all_day)),
{
    let secs = ts as int % 86400;
    let s = written(iso_style(all_day), y, m, d, secs);
    lemma_shown(ts, y, m, d, iso_style(all_day));
    assert(iso_text(ts, all_day) == s);
    assert(shows_parts(s, iso_style(all_day), y, m, d, secs));
    lemma_shown_in(y, m, d, secs, all_day);
    lemma_iso_text(y, m, d, secs, all_day);
    assert(shown_in(s, iso_style(all_day)) == Some(day_or_instant(ts, all_day)));
}

proof fn lemma_iso_bound(ts: i64, y: i32, m: u32, d: u32)
    requires
        four_digit_year(ts),
        is_day_of(ts, y, m, d),
        starts_day((ts - ts as int % 86400) as i64, m, d),
    ensures
        rfc_reading(iso_text(ts, false)) == Some(ts),
{
    let secs = ts as int % 86400;
    lemma_shown(ts, y, m, d, TimeStyle::IsoTime);
    lemma_shown_in(y, m, d, secs, false);
}

proof fn lemma_basic_instant(ts: i64, all_day: bool, y: i32, m: u32, d: u32)
    requires
        four_digit_year(ts),
        is_day_of(ts, y, m, d),
        starts_day((ts - ts as int % 86400) as i64, m, d),
    ensures
        dt_reading(basic_text(ts, all_day), all_day) == Some(
            (day_or_instant(ts, all_day), all_day),
        ),
        !basic_text(ts, all_day).contains(','),
{
    let secs = ts as int % 86400;
    lemma_shown(ts, y, m, d, basic_style(all_day));
    assert(shows(Some(basic_text(ts, all_day)), ts, basic_style(all_day)));
    lemma_basic_text_reads_back(basic_text(ts, all_day), ts, all_day);
    lemma_no_comma(y, m, d, secs, all_day);
}

/// The days follow one another: the first of January 1970 starts at the epoch, each day that is
/// followed by another of its month starts a day before it, the last of a month a day before the
/// first of the next, and the last of December a day before the first of January. A day is there
/// exactly where its month has that many days: the thirty-first of seven months, the thirtieth of
/// all but February, and the twenty-ninth of February in leap years.
pub proof fn law_days_follow_one_another(y: i32, m: u32, d: u32)
    requires
        -262_142 <= y <= 262_141,
    ensures
        unix_date_of(1970, 1, 1) == Some(0i64),
        unix_date_of(y, m, d) is Some && unix_date_of(y, m, (d + 1) as u32) is Some ==> unix_date_of(
            y,
            m,
            (d + 1) as u32,
        )->Some_0 == unix_date_of(y, m, d)->Some_0 + 86400,
        unix_date_of(y, m, d) is Some && d < 31 && unix_date_of(y, m, (d + 1) as u32) is None && m
            < 12 ==> unix_date_of(y, (m + 1) as u32, 1)->Some_0 == unix_date_of(y, m, d)->Some_0
            + 86400,
        d == 31 && m < 12 && unix_date_of(y, m, d) is Some ==> unix_date_of(
            y,
            (m + 1) as u32,
            1,
        )->Some_0 == unix_date_of(y, m, d)->Some_0 + 86400,
        unix_date_of((y + 1) as i32, 1, 1)->Some_0 == unix_date_of(y, 12, 31)->Some_0 + 86400,
        unix_date_of(y, m, d) is Some <==> 1 <= m <= 12 && 1 <= d && (d <= 28 || (d == 29 && (m != 2
            || (y % 4 == 0 && (y % 100 != 0 || y % 400 == 0)))) || (d == 30 && m != 2) || (d == 31
            && (m == 1 || m == 3 || m == 5 || m == 7 || m == 8 || m == 10 || m == 12))),
{
    reveal_with_fuel(days_before_month, 13);
    lemma_starts_day(y, m, d);
    if d < u32::MAX {
        lemma_starts_day(y, m, (d + 1) as u32);
    }
    if m < u32::MAX {
        lemma_starts_day(y, (m + 1) as u32, 1);
    }
    lemma_starts_day((y + 1) as i32, 1, 1);
    lemma_starts_day(y, 12, 31);
    lemma_next_year(y as int);
}

/// An instant is written with the digits of its year, month, day, hour, minute and second, in that order:
/// without separators, or with hyphens and colons between them.
pub proof fn law_instants_show_their_clock(
    ts: i64,
    y: i32,
    m: u32,
    d: u32,
    h: int,
    mi: int,
    s: int,
)
    requires
        0 <= y <= 9999,
        unix_date_of(y, m, d) is Some,
        0 <= h < 24 && 0 <= mi < 60 && 0 <= s < 60,
        ts == unix_date_of(y, m, d)->Some_0 + 3600 * h + 60 * mi + s,
    ensures
        ({
            let date = seq![
                digit_char(y as int / 1000),
                digit_char(y as int / 100 % 10),
                digit_char(y as int / 10 % 10),
                digit_char(y as int % 10),
                digit_char(m as int / 10),
                digit_char(m as int % 10),
                digit_char(d as int / 10),
                digit_char(d as int % 10),
            ];
            let clock = seq![
                digit_char(h / 10),
                digit_char(h % 10),
                digit_char(mi / 10),
                digit_char(mi % 10),
                digit_char(s / 10),
                digit_char(s % 10),
            ];
            &&& basic_text(ts, true) == date
            &&& basic_text(ts, false) == date + seq!['T'] + clock + seq!['Z']
            &&& iso_text(ts, true) == date.take(4) + seq!['-'] + date.subrange(4, 6) + seq!['-']
                + date.skip(6)
            &&& iso_text(ts, false) == iso_text(ts, true) + seq!['T'] + clock.take(2) + seq![':']
                + clock.subrange(2, 4) + seq![':'] + clock.skip(4) + seq!['Z']
        }),
{
    let secs = 3600 * h + 60 * mi + s;
    lemma_instant(y, m, d, secs);
    lemma_starts_day(y, m, d);
    assert(secs / 3600 == h && secs / 60 % 60 == mi && secs % 60 == s);
    lemma_shown(ts, y, m, d, TimeStyle::BasicDate);
    lemma_shown(ts, y, m, d, TimeStyle::BasicTime);
    lemma_shown(ts, y, m, d, TimeStyle::IsoDate);
    lemma_shown(ts, y, m, d, TimeStyle::IsoTime);
    lemma_clock_texts(y, m, d, h, mi, s);
}

proof fn lemma_clock_texts(y: i32, m: u32, d: u32, h: int, mi: int, s: int)
    requires
        0 <= y <= 9999,
        1 <= m <= 12 && 1 <= d <= 31,
        0 <= h < 24 && 0 <= mi < 60 && 0 <= s < 60,
    ensures
        ({
            let date = seq![
                digit_char(y as int / 1000),
                digit_char(y as int / 100 % 10),
                digit_char(y as int / 10 % 10),
                digit_char(y as int % 10),
                digit_char(m as int / 10),
                digit_char(m as int % 10),
                digit_char(d as int / 10),
                digit_char(d as int % 10),
            ];
            let clock = seq![
                digit_char(h / 10),
                digit_char(h % 10),
                digit_char(mi / 10),
                digit_char(mi % 10),
                digit_char(s / 10),
                digit_char(s % 10),
            ];
            &&& basic_date(y, m, d) == date
            &&& basic_time(y, m, d, h, mi, s) == date + seq!['T'] + clock + seq!['Z']
            &&& iso_date(y, m, d) == date.take(4) + seq!['-'] + date.subrange(4, 6) + seq!['-']
                + date.skip(6)
            &&& iso_time(y, m, d, h, mi, s) == iso_date(y, m, d) + seq!['T'] + clock.take(2)
                + seq![':'] + clock.subrange(2, 4) + seq![':'] + clock.skip(4) + seq!['Z']
        }),
{
    let n = y as int;
    assert(n / 100 / 10 % 10 == n / 1000 && n % 100 / 10 % 10 == n / 10 % 10 && n % 100 % 10 == n
        % 10);
    let date = seq![
        digit_char(y as int / 1000),
        digit_char(y as int / 100 % 10),
        digit_char(y as int / 10 % 10),
        digit_char(y as int % 10),
        digit_char(m as int / 10),
        digit_char(m as int % 10),
        digit_char(d as int / 10),
        digit_char(d as int % 10),
    ];
    let clock = seq![
        digit_char(h / 10),
        digit_char(h % 10),
        digit_char(mi / 10),
        digit_char(mi % 10),
        digit_char(s / 10),
        digit_char(s % 10),
    ];
    assert(four_digits(n) =~= date.take(4));
    assert(two_digits(m as int) =~= date.subrange(4, 6));
    assert(two_digits(d as int) =~= date.skip(6));
    assert(two_digits(h) =~= clock.take(2));
    assert(two_digits(mi) =~= clock.subrange(2, 4));
    assert(two_digits(s) =~= clock.skip(4));
    assert(basic_date(y, m, d) =~= date);
    assert(basic_time(y, m, d, h, mi, s) =~= date + seq!['T'] + clock + seq!['Z']);
}

/// A calendar's text of a date and a time of day names that time, with a `Z` behind it or without; a leap second
/// counts as the second before it, except as a bound of a range, where it is no time; eight digits are a whole
/// day.
#[verifier::spinoff_prover]
#[verifier::rlimit(40)]
pub proof fn law_times_of_day(y: i32, m: u32, d: u32, h: int, mi: int, s: int, zone: Seq<char>)
    requires
        0 <= y <= 9999,
        unix_date_of(y, m, d) is Some,
        0 <= h < 24 && 0 <= mi < 60 && 0 <= s <= 60,
        zone == seq!['Z'] || zone.len() == 0,
    ensures
        ({
            let day = unix_date_of(y, m, d)->Some_0;
            let date = basic_date(y, m, d);
            let t = date + seq!['T'] + two_digits(h) + two_digits(mi) + two_digits(s) + zone;
            &&& s < 60 ==> dt_reading(t, false) == Some(
                ((day + 3600 * h + 60 * mi + s) as i64, false),
            )
            &&& s == 60 ==> dt_reading(t, false) == Some(
                ((day + 3600 * h + 60 * mi + 59) as i64, false),
            )
            &&& s < 60 ==> range_reading(t) == Some((day + 3600 * h + 60 * mi + s) as i64)
            &&& s == 60 ==> range_reading(t) is None
            &&& dt_reading(date, false) == Some((day, true))
            &&& dt_reading(t, true) == Some((day, true))
            &&& range_reading(date) == Some(day)
        }),
{
    let date = basic_date(y, m, d);
    let t = date + seq!['T'] + two_digits(h) + two_digits(mi) + two_digits(s) + zone;
    lemma_starts_day(y, m, d);
    lemma_four_digits(y as int);
    lemma_two_digits(m as int);
    lemma_two_digits(d as int);
    lemma_two_digits(h);
    lemma_two_digits(mi);
    lemma_two_digits(s);
    assert(date.subrange(0, 4) =~= four_digits(y as int));
    assert(date.subrange(4, 6) =~= two_digits(m as int));
    assert(date.subrange(6, 8) =~= two_digits(d as int));
    assert(t.subrange(0, 4) =~= four_digits(y as int));
    assert(t.subrange(4, 6) =~= two_digits(m as int));
    assert(t.subrange(6, 8) =~= two_digits(d as int));
    assert(t.subrange(9, 11) =~= two_digits(h));
    assert(t.subrange(11, 13) =~= two_digits(mi));
    assert(t.subrange(13, 15) =~= two_digits(s));
    assert(t[8] == 'T');
    assert(decimal::is_digit(date[0]) && decimal::is_digit(date[7])) by {
        assert(date[0] == four_digits(y as int)[0]);
        assert(date[7] == two_digits(d as int)[1]);
    }
    assert(decimal::is_digit(t[14])) by {
        assert(t[14] == two_digits(s)[1]);
    }
    assert(t[0] == date[0]);
    lemma_trimmed(date);
    if zone.len() == 0 {
        assert(t.last() == t[14]);
    } else {
        assert(t.last() == 'Z');
    }
    lemma_trimmed(t);
    assert(all_digits(date)) by {
        assert forall|k: int| 0 <= k < date.len() implies decimal::is_digit(#[trigger] date[k]) by {
            if k < 4 {
                assert(date[k] == four_digits(y as int)[k]);
            } else if k < 6 {
                assert(date[k] == two_digits(m as int)[k - 4]);
            } else {
                assert(date[k] == two_digits(d as int)[k - 6]);
            }
        }
    }
}

} // verus!
