//! The formats of the dates and times that a task can be due at.

use vstd::prelude::*;
use vstd::slice::slice_subrange;
use vstd::string::StringExecFns;
use crate::text::{chars_of, digit_of, digit_value, is_digit, is_digit_char, opt_view};

verus! {

/// The number written by the two digits at `at`, where two digits stand there.
pub open spec fn two_digits(s: Seq<char>, at: int) -> Option<int> {
    if 0 <= at && at + 2 <= s.len() && is_digit(s[at]) && is_digit(s[at + 1]) {
        Some(10 * digit_value(s[at]) + digit_value(s[at + 1]))
    } else {
        None
    }
}

/// Two digits stand at `at`, and the number they write lies in `low..=high`.
pub open spec fn two_digits_within(s: Seq<char>, at: int, low: int, high: int) -> bool {
    match two_digits(s, at) {
        Some(value) => low <= value <= high,
        None => false,
    }
}

/// Four digits stand at `at`.
pub open spec fn four_digits(s: Seq<char>, at: int) -> bool {
    &&& 0 <= at
    &&& at + 4 <= s.len()
    &&& is_digit(s[at])
    &&& is_digit(s[at + 1])
    &&& is_digit(s[at + 2])
    &&& is_digit(s[at + 3])
}

/// A calendar date `YYYY-MM-DD`: a year of four digits, a month in 1..=12 and a
/// day in 1..=31, each of two digits.
pub open spec fn is_date(s: Seq<char>) -> bool {
    &&& s.len() == 10
    &&& four_digits(s, 0)
    &&& s[4] == '-'
    &&& two_digits_within(s, 5, 1, 12)
    &&& s[7] == '-'
    &&& two_digits_within(s, 8, 1, 31)
}

/// Why a text is no date `YYYY-MM-DD`.
#[derive(Debug, Clone, Copy, PartialEq, Eq, Structural)]
pub enum DateFault {
    /// The text is not 10 characters long.
    Length,
    /// No `-` stands at position 4, or none at position 7.
    Dashes,
    /// The year is not four digits.
    Year,
    /// The month is not two digits, or lies outside 1..=12.
    Month,
    /// The day is not two digits, or lies outside 1..=31.
    Day,
}

impl DateFault {
    /// The words for the fault.
    pub open spec fn text(self) -> Seq<char> {
        match self {
            DateFault::Length => "length was not 10"@,
            DateFault::Dashes => "dashes missing"@,
            DateFault::Year => "invalid year"@,
            DateFault::Month => "invalid month"@,
            DateFault::Day => "invalid day"@,
        }
    }

    /// The words for the fault.
    pub fn message(&self) -> (words: &'static str)
        ensures
            words@ == self.text(),
    {
        match self {
            DateFault::Length => "length was not 10",
            DateFault::Dashes => "dashes missing",
            DateFault::Year => "invalid year",
            DateFault::Month => "invalid month",
            DateFault::Day => "invalid day",
        }
    }
}

/// The first fault of `s` as a date: length, dashes, year, month and day are
/// looked at in this order.
pub open spec fn date_fault(s: Seq<char>) -> Option<DateFault> {
    if s.len() != 10 {
        Some(DateFault::Length)
    } else if s[4] != '-' || s[7] != '-' {
        Some(DateFault::Dashes)
    } else if !four_digits(s, 0) {
        Some(DateFault::Year)
    } else if !two_digits_within(s, 5, 1, 12) {
        Some(DateFault::Month)
    } else if !two_digits_within(s, 8, 1, 31) {
        Some(DateFault::Day)
    } else {
        None
    }
}

/// A text has no fault as a date exactly if it is a date.
pub proof fn lemma_date_fault_free(s: Seq<char>)
    ensures
        date_fault(s) is None <==> is_date(s),
{
}

/// The number written by the two digits at `at`.
fn two_digits_at(s: &[char], at: usize) -> (value: Option<u8>)
    ensures
        match value {
            Some(v) => two_digits(s@, at as int) == Some(v as int),
            None => two_digits(s@, at as int) is None,
        },
{
    if at <= s.len() && s.len() - at >= 2 && is_digit_char(s[at]) && is_digit_char(s[at + 1]) {
        Some(10 * digit_of(s[at]) + digit_of(s[at + 1]))
    } else {
        None
    }
}

/// Decides `two_digits_within`.
fn has_two_digits_within(s: &[char], at: usize, low: u8, high: u8) -> (within: bool)
    ensures
        within == two_digits_within(s@, at as int, low as int, high as int),
{
    match two_digits_at(s, at) {
        Some(value) => low <= value && value <= high,
        None => false,
    }
}

/// Finds the first fault of `s` as a date.
pub fn find_date_fault(s: &[char]) -> (fault: Option<DateFault>)
    ensures
        fault == date_fault(s@),
{
    if s.len() != 10 {
        Some(DateFault::Length)
    } else if s[4] != '-' || s[7] != '-' {
        Some(DateFault::Dashes)
    } else if !(is_digit_char(s[0]) && is_digit_char(s[1]) && is_digit_char(s[2])
        && is_digit_char(s[3])) {
        Some(DateFault::Year)
    } else if !has_two_digits_within(s, 5, 1, 12) {
        Some(DateFault::Month)
    } else if !has_two_digits_within(s, 8, 1, 31) {
        Some(DateFault::Day)
    } else {
        None
    }
}

/// The words for the first fault of `s` as a date, if it has one.
pub open spec fn date_fault_text(s: Seq<char>) -> Option<Seq<char>> {
    match date_fault(s) {
        Some(fault) => Some(fault.text()),
        None => None,
    }
}

/// Checks that `date` is a date `YYYY-MM-DD` and says what is wrong where it is
/// none.
pub fn validate_yyyy_mm_dd(date: String) -> (error: Option<String>)
    ensures
        opt_view(error) == date_fault_text(date@),
{
    let chars = chars_of(date.as_str());
    match find_date_fault(chars.as_slice()) {
        Some(fault) => Some(String::from_str(fault.message())),
        None => None,
    }
}

/// Where the digits end that start at `from`: the first position from there on
/// that holds no digit.
pub open spec fn digits_end(s: Seq<char>, from: int) -> int
    decreases s.len() - from,
{
    if 0 <= from < s.len() && is_digit(s[from]) {
        digits_end(s, from + 1)
    } else {
        from
    }
}

/// A character that opens a time zone.
pub open spec fn is_zone_mark(c: char) -> bool {
    c == 'Z' || c == 'z' || c == '+' || c == '-'
}

/// Where the time zone of a date and time starts: behind the seconds, or behind
/// the fraction of a second where a `.` follows the seconds.
pub open spec fn zone_start(s: Seq<char>) -> int {
    if 19 < s.len() && s[19] == '.' {
        digits_end(s, 20)
    } else {
        19
    }
}

/// A time zone: `Z` or `z`, or an offset `+HH:MM` or `-HH:MM` with the hour in
/// 0..=23 and the minute in 0..=59.
pub open spec fn is_zone(z: Seq<char>) -> bool {
    ||| z.len() == 1 && (z[0] == 'Z' || z[0] == 'z')
    ||| {
        &&& z.len() == 6
        &&& (z[0] == '+' || z[0] == '-')
        &&& two_digits_within(z, 1, 0, 23)
        &&& z[3] == ':'
        &&& two_digits_within(z, 4, 0, 59)
    }
}

/// A date and time as RFC 3339 writes it: a date; `T`, `t` or a space; hour,
/// minute and second at positions 11, 14 and 17, the second up to 60 for a leap
/// second; then, as an option, `.` and one or more digits; then the time zone,
/// which ends the text.
pub open spec fn is_date_time(s: Seq<char>) -> bool {
    &&& s.len() >= 20
    &&& is_date(s.take(10))
    &&& (s[10] == 'T' || s[10] == 't' || s[10] == ' ')
    &&& two_digits_within(s, 11, 0, 23)
    &&& two_digits_within(s, 14, 0, 59)
    &&& two_digits_within(s, 17, 0, 60)
    &&& (s[19] == '.' ==> zone_start(s) > 20)
    &&& is_zone(s.skip(zone_start(s)))
}

/// Why a text is no date and time as RFC 3339 writes it.
#[derive(Debug, Clone, Copy, PartialEq, Eq, Structural)]
pub enum DateTimeFault {
    /// The text has fewer than 20 characters.
    Length,
    /// The first 10 characters are no date.
    Date(DateFault),
    /// Neither `T` nor a space stands between date and time.
    Separator,
    /// The hour is not two digits, or lies outside 0..=23.
    Hour,
    /// The minute is not two digits, or lies outside 0..=59.
    Minute,
    /// The second is not two digits, or lies outside 0..=60.
    Second,
    /// No digit follows the `.` behind the seconds.
    EmptyFraction,
    /// The fraction of a second holds something other than digits.
    Fraction,
    /// No time zone follows the time.
    ZoneMissing,
    /// Something follows the time zone `Z`, or `z` where `lowercase` holds.
    ZuluNotLast { lowercase: bool },
    /// The hour of the offset is not two digits, or lies outside 0..=23.
    ZoneHour,
    /// No `:` stands between hour and minute of the offset.
    ZoneColon,
    /// The minute of the offset is not two digits, or lies outside 0..=59.
    ZoneMinute,
    /// Something follows the offset.
    ZoneNotLast,
}

impl DateTimeFault {
    /// The words for the fault.
    pub open spec fn text(self) -> Seq<char> {
        match self {
            DateTimeFault::Length => "length was less than 20"@,
            DateTimeFault::Date(fault) => "invalid date: "@ + fault.text(),
            DateTimeFault::Separator => "missing T or space"@,
            DateTimeFault::Hour => "invalid hour"@,
            DateTimeFault::Minute => "invalid minute"@,
            DateTimeFault::Second => "invalid second"@,
            DateTimeFault::EmptyFraction => "Time cannot end with a decimal point '.'"@,
            DateTimeFault::Fraction => "invalid time fraction number"@,
            DateTimeFault::ZoneMissing => "missing timezone"@,
            DateTimeFault::ZuluNotLast { lowercase } => if lowercase {
                "Timezone 'z' must be the last character"@
            } else {
                "Timezone 'Z' must be the last character"@
            },
            DateTimeFault::ZoneHour => "invalid timezone hour"@,
            DateTimeFault::ZoneColon => "missing timezone colon"@,
            DateTimeFault::ZoneMinute => "invalid timezone minute"@,
            DateTimeFault::ZoneNotLast => "Timezone offset must be the last part"@,
        }
    }

    /// The words for the fault.
    pub fn message(&self) -> (words: String)
        ensures
            words@ == self.text(),
    {
        match self {
            DateTimeFault::Length => String::from_str("length was less than 20"),
            DateTimeFault::Date(fault) => {
                let mut words = String::from_str("invalid date: ");
                words.append(fault.message());
                words
            },
            DateTimeFault::Separator => String::from_str("missing T or space"),
            DateTimeFault::Hour => String::from_str("invalid hour"),
            DateTimeFault::Minute => String::from_str("invalid minute"),
            DateTimeFault::Second => String::from_str("invalid second"),
            DateTimeFault::EmptyFraction => String::from_str(
                "Time cannot end with a decimal point '.'",
            ),
            DateTimeFault::Fraction => String::from_str("invalid time fraction number"),
            DateTimeFault::ZoneMissing => String::from_str("missing timezone"),
            DateTimeFault::ZuluNotLast { lowercase } => if *lowercase {
                String::from_str("Timezone 'z' must be the last character")
            } else {
                String::from_str("Timezone 'Z' must be the last character")
            },
            DateTimeFault::ZoneHour => String::from_str("invalid timezone hour"),
            DateTimeFault::ZoneColon => String::from_str("missing timezone colon"),
            DateTimeFault::ZoneMinute => String::from_str("invalid timezone minute"),
            DateTimeFault::ZoneNotLast => String::from_str(
                "Timezone offset must be the last part",
            ),
        }
    }
}

/// The fault of the fraction of a second, if the text holds a `.` behind the
/// seconds: a fraction without digits, or one that something other than a time
/// zone follows.
pub open spec fn fraction_fault(s: Seq<char>) -> Option<DateTimeFault> {
    let end = digits_end(s, 20);
    if !(19 < s.len() && s[19] == '.') {
        None
    } else if end == 20 && (end == s.len() || is_zone_mark(s[end])) {
        Some(DateTimeFault::EmptyFraction)
    } else if end < s.len() && !is_zone_mark(s[end]) {
        Some(DateTimeFault::Fraction)
    } else {
        None
    }
}

/// The first fault of the time zone that starts at `at` and is to end the text.
pub open spec fn zone_fault(s: Seq<char>, at: int) -> Option<DateTimeFault> {
    if !(0 <= at < s.len()) {
        Some(DateTimeFault::ZoneMissing)
    } else if s[at] == 'Z' || s[at] == 'z' {
        if s.len() > at + 1 {
            Some(DateTimeFault::ZuluNotLast { lowercase: s[at] == 'z' })
        } else {
            None
        }
    } else if !(s[at] == '+' || s[at] == '-') {
        Some(DateTimeFault::ZoneMissing)
    } else if !two_digits_within(s, at + 1, 0, 23) {
        Some(DateTimeFault::ZoneHour)
    } else if !(at + 3 < s.len() && s[at + 3] == ':') {
        Some(DateTimeFault::ZoneColon)
    } else if !two_digits_within(s, at + 4, 0, 59) {
        Some(DateTimeFault::ZoneMinute)
    } else if s.len() > at + 6 {
        Some(DateTimeFault::ZoneNotLast)
    } else {
        None
    }
}

/// The first fault of `s` as a date and time: length, date, separator, hour,
/// minute, second, fraction and time zone are looked at in this order.
pub open spec fn date_time_fault(s: Seq<char>) -> Option<DateTimeFault> {
    if s.len() < 20 {
        Some(DateTimeFault::Length)
    } else if date_fault(s.take(10)) is Some {
        Some(DateTimeFault::Date(date_fault(s.take(10))->0))
    } else if !(s[10] == 'T' || s[10] == 't' || s[10] == ' ') {
        Some(DateTimeFault::Separator)
    } else if !two_digits_within(s, 11, 0, 23) {
        Some(DateTimeFault::Hour)
    } else if !two_digits_within(s, 14, 0, 59) {
        Some(DateTimeFault::Minute)
    } else if !two_digits_within(s, 17, 0, 60) {
        Some(DateTimeFault::Second)
    } else if fraction_fault(s) is Some {
        fraction_fault(s)
    } else {
        zone_fault(s, zone_start(s))
    }
}

/// The digits that start at `from` end within the text, and not before `from`.
pub proof fn lemma_digits_end(s: Seq<char>, from: int)
    requires
        0 <= from <= s.len(),
    ensures
        from <= digits_end(s, from) <= s.len(),
        forall|i: int| from <= i < digits_end(s, from) ==> is_digit(#[trigger] s[i]),
        digits_end(s, from) < s.len() ==> !is_digit(s[digits_end(s, from)]),
    decreases s.len() - from,
{
    if from < s.len() && is_digit(s[from]) {
        lemma_digits_end(s, from + 1);
    }
}

/// A text has no fault as a date and time exactly if it is a date and time.
pub proof fn lemma_date_time_fault_free(s: Seq<char>)
    ensures
        date_time_fault(s) is None <==> is_date_time(s),
{
    if s.len() >= 20 {
        lemma_date_fault_free(s.take(10));
        lemma_digits_end(s, 20);
        let at = zone_start(s);
        let z = s.skip(at);
        assert(forall|i: int| 0 <= i < z.len() ==> z[i] == s[at + i]);
        if at < s.len() {
            assert(z[0] == s[at]);
        }
    }
}

/// Finds where the digits end that start at `from`.
fn find_digits_end(s: &[char], from: usize) -> (end: usize)
    requires
        from <= s.len(),
    ensures
        end == digits_end(s@, from as int),
        from <= end <= s.len(),
{
    let mut end: usize = from;
    while end < s.len() && is_digit_char(s[end])
        invariant
            from <= end <= s.len(),
            digits_end(s@, from as int) == digits_end(s@, end as int),
        decreases s.len() - end,
    {
        end += 1;
    }
    end
}

/// Decides `is_zone_mark`.
fn is_zone_mark_char(c: char) -> (mark: bool)
    ensures
        mark == is_zone_mark(c),
{
    c == 'Z' || c == 'z' || c == '+' || c == '-'
}

/// Finds the first fault of the time zone that starts at `at`.
fn find_zone_fault(s: &[char], at: usize) -> (fault: Option<DateTimeFault>)
    requires
        at <= s.len(),
    ensures
        fault == zone_fault(s@, at as int),
{
    if at >= s.len() {
        Some(DateTimeFault::ZoneMissing)
    } else if s[at] == 'Z' || s[at] == 'z' {
        if s.len() - at > 1 {
            Some(DateTimeFault::ZuluNotLast { lowercase: s[at] == 'z' })
        } else {
            None
        }
    } else if !(s[at] == '+' || s[at] == '-') {
        Some(DateTimeFault::ZoneMissing)
    } else if !has_two_digits_within(s, at + 1, 0, 23) {
        Some(DateTimeFault::ZoneHour)
    } else if !(s.len() - at > 3 && s[at + 3] == ':') {
        Some(DateTimeFault::ZoneColon)
    } else if !has_two_digits_within(s, at + 4, 0, 59) {
        Some(DateTimeFault::ZoneMinute)
    } else if s.len() - at > 6 {
        Some(DateTimeFault::ZoneNotLast)
    } else {
        None
    }
}

/// Finds the first fault of `s` as a date and time.
pub fn find_date_time_fault(s: &[char]) -> (fault: Option<DateTimeFault>)
    ensures
        fault == date_time_fault(s@),
{
    if s.len() < 20 {
        return Some(DateTimeFault::Length);
    }
    proof {
        assert(s@.subrange(0, 10) =~= s@.take(10));
    }
    if let Some(fault) = find_date_fault(slice_subrange(s, 0, 10)) {
        return Some(DateTimeFault::Date(fault));
    }
    if !(s[10] == 'T' || s[10] == 't' || s[10] == ' ') {
        return Some(DateTimeFault::Separator);
    }
    if !has_two_digits_within(s, 11, 0, 23) {
        return Some(DateTimeFault::Hour);
    }
    if !has_two_digits_within(s, 14, 0, 59) {
        return Some(DateTimeFault::Minute);
    }
    if !has_two_digits_within(s, 17, 0, 60) {
        return Some(DateTimeFault::Second);
    }
    let mut zone: usize = 19;
    if s[19] == '.' {
        zone = find_digits_end(s, 20);
        if zone == 20 && (zone == s.len() || is_zone_mark_char(s[zone])) {
            return Some(DateTimeFault::EmptyFraction);
        }
        if zone < s.len() && !is_zone_mark_char(s[zone]) {
            return Some(DateTimeFault::Fraction);
        }
    }
    find_zone_fault(s, zone)
}

/// The words for the first fault of `s` as a date and time, if it has one.
pub open spec fn date_time_fault_text(s: Seq<char>) -> Option<Seq<char>> {
    match date_time_fault(s) {
        Some(fault) => Some(fault.text()),
        None => None,
    }
}

/// Checks that `datetime` is a date and time as RFC 3339 writes it and says what
/// is wrong where it is none.
pub fn validate_rfc3339(datetime: String) -> (error: Option<String>)
    ensures
        opt_view(error) == date_time_fault_text(datetime@),
{
    let chars = chars_of(datetime.as_str());
    match find_date_time_fault(chars.as_slice()) {
        Some(fault) => Some(fault.message()),
        None => None,
    }
}

} // verus!
