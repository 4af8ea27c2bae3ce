//! The wall clock and the calendar, both taken from `chrono`.
//!
//! Instants are whole seconds of the local wall clock counted from
//! 1970-01-01 00:00:00. The calendar fields of an instant and its printed
//! stamp are computed by `chrono`; this module names those results and says
//! of them no more than `chrono` documents.

use chrono::{Datelike, Timelike};
use vstd::prelude::*;

use crate::text::{lemma_split_last_field, lemma_split_plain, split_text, texts};
use crate::{DateType, MODE};

verus! {

/// The last second that `chrono` can turn into a date: the end of the year
/// 262142.
pub const MAX_TIMESTAMP: u64 = 8_210_266_876_799;

/// The pattern from which the three parts of a line's time are printed, with
/// `|` between them.
pub open spec fn time_parts_pattern() -> Seq<char> {
    "%Y-%m-%d|%H:%M:%S|%.6f"@
}

/// The `strftime` patterns that this crate hands to `chrono`.
pub open spec fn is_stamp_pattern(pattern: Seq<char>) -> bool {
    pattern == "%Y%m%d%H"@ || pattern == "%Y%m%d"@ || pattern == "%Y%m"@
}

/// The text that `chrono` prints for the instant `secs` under `pattern`.
pub uninterp spec fn utc_text(secs: int, pattern: Seq<char>) -> Seq<char>;

/// The month, from 1 to 12, in which the instant `secs` falls.
pub uninterp spec fn utc_month(secs: int) -> int;

/// The day of the month, from 1 to 31, on which the instant `secs` falls.
pub uninterp spec fn utc_day(secs: int) -> int;

/// The hour of the day, from 0 to 23, in which the instant `secs` falls.
pub open spec fn utc_hour(secs: int) -> int {
    (secs % 86_400) / 3_600
}

/// The calendar field that a rotation of the given granularity watches.
pub open spec fn calendar_field(secs: int, mode: MODE) -> int {
    match mode {
        MODE::HOUR => utc_hour(secs),
        MODE::DAY => utc_day(secs),
        MODE::MONTH => utc_month(secs),
    }
}

/// Prints an instant under a `strftime` pattern.
///
/// Calls `chrono::DateTime::from_timestamp(secs, 0)` and, on the value it
/// gives, `format(pattern).to_string()`. The contract claims that an instant
/// between 0 and `MAX_TIMESTAMP` is always printed, and names the text. The
/// three admitted patterns hold only `%Y`, `%m`, `%d` and `%H`, for which
/// printing cannot fail.
#[verifier::external_body]
pub(crate) fn utc_format(secs: i64, pattern: &str) -> (text: Option<String>)
    requires
        is_stamp_pattern(pattern@),
    ensures
        0 <= secs <= MAX_TIMESTAMP ==> text is Some,
        text matches Some(t) ==> t@ == utc_text(secs as int, pattern@),
{
    chrono::DateTime::from_timestamp(secs, 0).map(|t| t.format(pattern).to_string())
}

/// The month of an instant.
///
/// Calls `chrono::DateTime::from_timestamp(secs, 0)` and `Datelike::month`.
/// The contract claims that an instant between 0 and `MAX_TIMESTAMP` has a
/// month, and names it.
#[verifier::external_body]
pub(crate) fn month_of(secs: i64) -> (month: Option<u32>)
    ensures
        0 <= secs <= MAX_TIMESTAMP ==> month is Some,
        month matches Some(m) ==> m == utc_month(secs as int),
{
    chrono::DateTime::from_timestamp(secs, 0).map(|t| t.month())
}

/// The day of the month of an instant.
///
/// Calls `chrono::DateTime::from_timestamp(secs, 0)` and `Datelike::day`.
/// The contract claims that an instant between 0 and `MAX_TIMESTAMP` has a
/// day, and names it.
#[verifier::external_body]
pub(crate) fn day_of(secs: i64) -> (day: Option<u32>)
    ensures
        0 <= secs <= MAX_TIMESTAMP ==> day is Some,
        day matches Some(d) ==> d == utc_day(secs as int),
{
    chrono::DateTime::from_timestamp(secs, 0).map(|t| t.day())
}

/// The hour of the day of an instant.
///
/// Calls `chrono::DateTime::from_timestamp(secs, 0)` and `Timelike::hour`.
/// The contract claims that an instant between 0 and `MAX_TIMESTAMP` has an
/// hour, and that it is the number of whole hours in the seconds that remain
/// of `secs` after the whole days.
#[verifier::external_body]
pub(crate) fn hour_of(secs: i64) -> (hour: Option<u32>)
    ensures
        0 <= secs <= MAX_TIMESTAMP ==> hour is Some,
        hour matches Some(h) ==> h == utc_hour(secs as int),
{
    chrono::DateTime::from_timestamp(secs, 0).map(|t| t.hour())
}

/// The local wall clock, in seconds.
///
/// Calls `chrono::Local::now()` and, on its `naive_local()`, `and_utc()` and
/// `timestamp()`. The result depends on the moment of the call, so nothing is
/// claimed of it.
#[verifier::external_body]
pub(crate) fn local_seconds() -> i64 {
    chrono::Local::now().naive_local().and_utc().timestamp()
}

/// A decimal digit.
pub open spec fn is_digit(c: char) -> bool {
    '0' <= c && c <= '9'
}

/// A year as it is printed: four digits or more, behind a sign where the
/// year does not lie between 0 and 9999.
pub open spec fn is_year_text(text: Seq<char>) -> bool {
    &&& text.len() >= 4
    &&& is_digit(text[0]) || (text.len() >= 5 && (text[0] == '+' || text[0] == '-'))
    &&& forall|i: int| 1 <= i < text.len() ==> is_digit(#[trigger] text[i])
}

/// A date as it is printed: the year, then the month and the day of the
/// month with two digits each, a `-` before either.
pub open spec fn is_date_text(text: Seq<char>) -> bool {
    let n = text.len() as int;
    &&& n >= 10
    &&& is_year_text(text.subrange(0, n - 6))
    &&& text[n - 6] == '-'
    &&& is_digit(text[n - 5])
    &&& is_digit(text[n - 4])
    &&& text[n - 3] == '-'
    &&& is_digit(text[n - 2])
    &&& is_digit(text[n - 1])
}

/// A time of day as it is printed: the hour, the minute and the second with
/// two digits each, a `:` between them.
pub open spec fn is_time_text(text: Seq<char>) -> bool {
    &&& text.len() == 8
    &&& is_digit(text[0])
    &&& is_digit(text[1])
    &&& text[2] == ':'
    &&& is_digit(text[3])
    &&& is_digit(text[4])
    &&& text[5] == ':'
    &&& is_digit(text[6])
    &&& is_digit(text[7])
}

/// The microseconds of a moment as they are printed: a dot and six digits.
pub open spec fn is_micros_text(text: Seq<char>) -> bool {
    &&& text.len() == 7
    &&& text[0] == '.'
    &&& forall|i: int| 1 <= i < 7 ==> is_digit(#[trigger] text[i])
}

/// `text` is a moment as it is printed under the pattern of the three
/// parts: the date, the time of day and the microseconds, with a `|` after
/// the first and after the second.
pub open spec fn is_moment_text(
    text: Seq<char>,
    date: Seq<char>,
    time: Seq<char>,
    micros: Seq<char>,
) -> bool {
    &&& text == date + seq!['|'] + time + seq!['|'] + micros
    &&& is_date_text(date)
    &&& is_time_text(time)
    &&& is_micros_text(micros)
}

/// None of the three parts of a printed moment holds a `|`.
pub proof fn lemma_parts_hold_no_bar(date: Seq<char>, time: Seq<char>, micros: Seq<char>)
    requires
        is_date_text(date),
        is_time_text(time),
        is_micros_text(micros),
    ensures
        !date.contains('|'),
        !time.contains('|'),
        !micros.contains('|'),
{
    let n = date.len() as int;
    let year = date.subrange(0, n - 6);
    assert forall|i: int| 0 <= i < n implies date[i] != '|' by {
        if i < n - 6 {
            assert(date[i] == year[i]);
        }
    }
}

/// The local wall clock, printed.
///
/// Calls `chrono::Local::now()` and, on its value, `format(pattern).to_string()`.
/// Which text comes back depends on the moment of the call; the contract
/// claims its shape, which is the same at every moment. Under the one
/// admitted pattern `chrono` prints the year with four digits or more (and a
/// sign outside 0 to 9999), a `-`, the month, a `-` and the day with two
/// digits each, the `|` of the pattern, hour, minute and second with two
/// digits each and a `:` between them, the second `|`, and a dot with the
/// microseconds in six digits. Printing these cannot fail.
#[verifier::external_body]
pub(crate) fn local_text(pattern: &str) -> (text: String)
    requires
        pattern@ == time_parts_pattern(),
    ensures
        exists|date: Seq<char>, time: Seq<char>, micros: Seq<char>|
            is_moment_text(text@, date, time, micros),
{
    chrono::Local::now().format(pattern).to_string()
}

/// A reading of the clock as a count of seconds: a clock that stands before
/// 1970 reads as 0.
pub open spec fn seconds_of(raw: int) -> int {
    if raw < 0 {
        0
    } else {
        raw
    }
}

/// Turns a raw reading of the clock into a count of seconds.
pub fn clock_reading(raw: i64) -> (secs: u64)
    ensures
        secs == seconds_of(raw as int),
{
    if raw < 0 {
        0
    } else {
        raw as u64
    }
}

/// The local wall clock in whole seconds since 1970-01-01 00:00:00.
pub fn timesec() -> (secs: u64)
    ensures
        secs <= i64::MAX,
{
    clock_reading(local_seconds())
}

/// The date, the time of day and the microseconds of the present moment of
/// the local wall clock: three parts, printed as `YYYY-MM-DD`, `HH:MM:SS`
/// and a dot with six digits.
pub fn timenow() -> (parts: Vec<String>)
    ensures
        parts@.len() == 3,
        is_date_text(parts@[0]@),
        is_time_text(parts@[1]@),
        is_micros_text(parts@[2]@),
{
    let printed = local_text("%Y-%m-%d|%H:%M:%S|%.6f");
    let parts = split_text(printed.as_str(), '|');
    proof {
        let (date, time, micros) = choose|date: Seq<char>, time: Seq<char>, micros: Seq<char>|
            is_moment_text(printed@, date, time, micros);
        lemma_parts_hold_no_bar(date, time, micros);
        lemma_split_plain(date, '|');
        lemma_split_last_field(date, time, '|');
        lemma_split_last_field(date + seq!['|'] + time, micros, '|');
        assert(texts(parts@) == seq![date, time, micros]);
        assert(texts(parts@)[0] == parts@[0]@);
        assert(texts(parts@)[1] == parts@[1]@);
        assert(texts(parts@)[2] == parts@[2]@);
    }
    parts
}

/// The place of each part among the parts of the present moment.
pub open spec fn position_of(which: DateType) -> int {
    match which {
        DateType::Date => 0,
        DateType::Time => 1,
        DateType::Microseconds => 2,
    }
}

/// One part of the present moment as `timenow` gives it; nothing where the
/// part is missing.
pub fn part_of<'a>(parts: &'a Vec<String>, which: DateType) -> (part: &'a str)
    ensures
        position_of(which) < parts@.len() ==> part@ == parts@[position_of(which)]@,
        position_of(which) >= parts@.len() ==> part@ == Seq::<char>::empty(),
{
    let at: usize = match which {
        DateType::Date => 0,
        DateType::Time => 1,
        DateType::Microseconds => 2,
    };
    if at < parts.len() {
        parts[at].as_str()
    } else {
        proof {
            reveal_strlit("");
            assert(""@ =~= Seq::<char>::empty());
        }
        ""
    }
}

/// The watched calendar field of an instant: `None` past `MAX_TIMESTAMP`,
/// where the calendar ends.
pub fn field_of(secs: u64, mode: MODE) -> (field: Option<u32>)
    ensures
        field is Some <==> secs <= MAX_TIMESTAMP,
        field matches Some(f) ==> f == calendar_field(secs as int, mode),
{
    if secs > MAX_TIMESTAMP {
        return None;
    }
    match mode {
        MODE::HOUR => hour_of(secs as i64),
        MODE::DAY => day_of(secs as i64),
        MODE::MONTH => month_of(secs as i64),
    }
}

} // verus!
