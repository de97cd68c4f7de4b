//! Tasks, their due dates and their durations.

use std::time::Duration;
use chrono::{DateTime, FixedOffset, TimeDelta, TimeZone};
use chrono_tz::Tz;
use vstd::prelude::*;
use crate::text::{chars_of, digit_of, digit_value, is_digit, is_digit_char, opt_view};

verus! {

/// A task.
#[derive(Debug, Clone)]
pub struct Task {
    /// The task ID.
    pub id: String,
    /// The ID of the project that the task belongs to.
    pub project_id: String,
    /// The ID of the section that the task belongs to; none where it is in no
    /// section.
    pub section_id: Option<String>,
    /// The text of the task, which may hold markdown and hyperlinks.
    pub content: String,
    /// A description of the task, which may hold markdown and hyperlinks.
    pub description: String,
    /// Whether the task is completed.
    pub is_completed: bool,
    /// The names of the task's labels, personal or shared.
    pub labels: Vec<String>,
    /// The ID of the parent task; none for a top-level task.
    pub parent_id: Option<String>,
    /// The position of the task under its parent, or in its project.
    pub order: u32,
    /// The priority, from 1 (normal) to 4 (urgent).
    pub priority: u8,
    /// When the task is due, if a date is set.
    pub due: Option<TaskDueDateTime>,
    /// Where the task is found in the web and mobile applications.
    pub url: String,
    /// The number of comments on the task.
    pub comment_count: u32,
    /// When the task was created.
    pub created_at: String,
    /// The ID of the user who created the task.
    pub creator_id: String,
    /// The ID of the user who is responsible for the task; none where it is
    /// unassigned.
    pub assignee_id: Option<String>,
    /// The ID of the user who assigned the task; none where it is unassigned.
    pub assigner_id: Option<String>,
    /// How long the task takes, where that is set.
    pub duration: Option<TaskDuration>,
}

/// When a task is due.
#[derive(Debug, Clone)]
pub struct TaskDueDateTime {
    /// The date as the user wrote it, in no fixed format.
    pub string: String,
    /// The date as `YYYY-MM-DD`, in the user's time zone.
    pub date: String,
    /// Whether the due date recurs.
    pub is_recurring: bool,
    /// Date and time in RFC 3339 format in UTC; only where the task is due at a
    /// time of day.
    pub datetime: Option<String>,
    /// The user's time zone, as a name of the tz database (`Europe/Berlin`) or
    /// as an offset east of UTC (`UTC-01:00`); only where the task is due at a
    /// time of day.
    pub timezone: Option<String>,
}

/// A point in time together with the offset from UTC at which it is shown.
#[derive(Debug, Clone, Copy, PartialEq, Eq, Structural)]
pub struct OffsetDateTime {
    /// The seconds since 1970-01-01 00:00:00 UTC, leap seconds not counted.
    pub timestamp: i64,
    /// The nanoseconds since the last full second; 1,000,000,000 and more
    /// within a leap second.
    pub nanosecond: u32,
    /// The seconds by which the local time is ahead of UTC.
    pub offset_seconds: i32,
}

impl OffsetDateTime {
    /// The offset is less than a day, as every offset that `chrono` holds.
    pub open spec fn is_well_formed(self) -> bool {
        -86400 < self.offset_seconds < 86400
    }
}

/// Why the due time of a task cannot be told.
#[derive(Debug, Clone, Copy, PartialEq, Eq, Structural)]
pub enum UnresolvedDue {
    /// `datetime` is no date and time as RFC 3339 writes it.
    Datetime,
    /// `timezone` is neither a zone of the tz database nor an offset
    /// `UTC±HH:MM` of less than a day.
    Timezone,
    /// The time zone has no such local time, or has it twice.
    LocalTime,
}

/// The text starts with `UTC`, as an offset from UTC does.
pub open spec fn starts_with_utc(timezone: Seq<char>) -> bool {
    timezone.len() >= 3 && timezone[0] == 'U' && timezone[1] == 'T' && timezone[2] == 'C'
}

/// The number that two characters at `at` write: two digits, or one digit
/// behind a sign.
pub open spec fn signed_two(s: Seq<char>, at: int) -> Option<int> {
    if !(0 <= at && at + 2 <= s.len()) {
        None
    } else if is_digit(s[at]) && is_digit(s[at + 1]) {
        Some(10 * digit_value(s[at]) + digit_value(s[at + 1]))
    } else if s[at] == '+' && is_digit(s[at + 1]) {
        Some(digit_value(s[at + 1]))
    } else if s[at] == '-' && is_digit(s[at + 1]) {
        Some(-digit_value(s[at + 1]))
    } else {
        None
    }
}

/// The seconds east of UTC that an offset `UTC±HH:MM` stands for: hours at
/// positions 4 and 5, minutes at 7 and 8, counted east behind `+` and west
/// behind anything else; none where a number is missing or the offset is a day
/// or more.
pub open spec fn utc_offset_seconds(timezone: Seq<char>) -> Option<int> {
    if timezone.len() >= 9 && signed_two(timezone, 4) is Some && signed_two(timezone, 7) is Some {
        let seconds = signed_two(timezone, 4)->0 * 3600 + signed_two(timezone, 7)->0 * 60;
        if -86400 < seconds < 86400 {
            Some(
                if timezone[3] == '+' {
                    seconds
                } else {
                    -seconds
                },
            )
        } else {
            None
        }
    } else {
        None
    }
}

/// What `chrono::DateTime::parse_from_rfc3339` makes of a text, where it takes
/// it.
pub uninterp spec fn parsed_rfc3339(text: Seq<char>) -> Option<OffsetDateTime>;

/// The time zone of the tz database that `chrono_tz::Tz` knows under a name,
/// where it knows one.
pub uninterp spec fn named_zone(name: Seq<char>) -> Option<Tz>;

/// The point in time at which the clocks of a time zone show the date and time
/// that UTC shows at `timestamp` and `nanosecond`, where there is exactly one.
pub uninterp spec fn zone_local_time(zone: Tz, timestamp: i64, nanosecond: u32) -> Option<
    OffsetDateTime,
>;

/// The point in time at which clocks that are `offset_seconds` ahead of UTC
/// show the date and time that UTC shows at `timestamp` and `nanosecond`, where
/// `chrono` can hold it.
pub uninterp spec fn offset_local_time(
    offset_seconds: i32,
    timestamp: i64,
    nanosecond: u32,
) -> Option<OffsetDateTime>;

/// `chrono::DateTime::parse_from_rfc3339`, with the result handed out as
/// timestamp, nanosecond and offset. The result is what the crate makes of the
/// text, and none where the crate refuses it. The offset is less than a day: the
/// crate makes every offset with `FixedOffset::east_opt` or `west_opt`, which
/// take no other.
#[verifier::external_body]
fn parse_rfc3339(text: &str) -> (at: Option<OffsetDateTime>)
    ensures
        at == parsed_rfc3339(text@),
        at matches Some(a) ==> a.is_well_formed(),
{
    match DateTime::parse_from_rfc3339(text) {
        Ok(at) => Some(
            OffsetDateTime {
                timestamp: at.timestamp(),
                nanosecond: at.timestamp_subsec_nanos(),
                offset_seconds: at.offset().local_minus_utc(),
            },
        ),
        Err(_) => None,
    }
}

/// `chrono_tz::Tz`'s `FromStr`: the time zone of that name, and none where the
/// tz database that the crate was built with has no such name.
#[verifier::external_body]
fn zone_by_name(name: &str) -> (zone: Option<Tz>)
    ensures
        zone == named_zone(name@),
{
    name.parse::<Tz>().ok()
}

/// `chrono::TimeZone::from_local_datetime` of a `chrono_tz::Tz`, on the date
/// and time that UTC shows at `timestamp` and `nanosecond`: the one point in
/// time at which the zone's clocks show that date and time, and none where they
/// never do, do so twice, or `chrono` cannot hold the date. The offset is less
/// than a day: the zone hands it out through `FixedOffset::east_opt`.
#[verifier::external_body]
fn local_in_zone(zone: Tz, timestamp: i64, nanosecond: u32) -> (at: Option<OffsetDateTime>)
    ensures
        at == zone_local_time(zone, timestamp, nanosecond),
        at matches Some(a) ==> a.is_well_formed(),
{
    let local = DateTime::from_timestamp(timestamp, nanosecond)?.naive_utc();
    let at = zone.from_local_datetime(&local).single()?.fixed_offset();
    Some(
        OffsetDateTime {
            timestamp: at.timestamp(),
            nanosecond: at.timestamp_subsec_nanos(),
            offset_seconds: at.offset().local_minus_utc(),
        },
    )
}

/// `chrono::TimeZone::from_local_datetime` of the `chrono::FixedOffset` that
/// `east_opt` makes of `offset_seconds`, on the date and time that UTC shows at
/// `timestamp` and `nanosecond`: the point in time at which clocks with that
/// offset show that date and time, and none where `chrono` cannot hold the
/// date. `east_opt` takes offsets of less than a day. Where there is a result,
/// the crate has taken the offset off the seconds, kept the nanoseconds, and
/// kept the offset.
#[verifier::external_body]
fn local_at_offset(offset_seconds: i32, timestamp: i64, nanosecond: u32) -> (at: Option<
    OffsetDateTime,
>)
    requires
        -86400 < offset_seconds < 86400,
    ensures
        at == offset_local_time(offset_seconds, timestamp, nanosecond),
        at matches Some(a) ==> a.timestamp == timestamp - offset_seconds && a.nanosecond
            == nanosecond && a.offset_seconds == offset_seconds,
{
    let local = DateTime::from_timestamp(timestamp, nanosecond)?.naive_utc();
    let at = FixedOffset::east_opt(offset_seconds)?.from_local_datetime(&local).single()?;
    Some(
        OffsetDateTime {
            timestamp: at.timestamp(),
            nanosecond: at.timestamp_subsec_nanos(),
            offset_seconds: at.offset().local_minus_utc(),
        },
    )
}

/// The point in time that a due time and the user's time zone stand for. The
/// date and time that `datetime` shows in UTC is taken as the local time of
/// `timezone`, which is an offset where it starts with `UTC` and the name of a
/// zone otherwise.
pub open spec fn resolved_due(datetime: Seq<char>, timezone: Seq<char>) -> Result<
    OffsetDateTime,
    UnresolvedDue,
> {
    match parsed_rfc3339(datetime) {
        None => Err(UnresolvedDue::Datetime),
        Some(parsed) => {
            let found = if starts_with_utc(timezone) {
                match utc_offset_seconds(timezone) {
                    Some(seconds) => Some(
                        offset_local_time(seconds as i32, parsed.timestamp, parsed.nanosecond),
                    ),
                    None => None,
                }
            } else {
                match named_zone(timezone) {
                    Some(zone) => Some(
                        zone_local_time(zone, parsed.timestamp, parsed.nanosecond),
                    ),
                    None => None,
                }
            };
            match found {
                None => Err(UnresolvedDue::Timezone),
                Some(None) => Err(UnresolvedDue::LocalTime),
                Some(Some(at)) => Ok(at),
            }
        },
    }
}

/// The number that two characters at `at` write.
fn signed_two_at(s: &[char], at: usize) -> (value: Option<i32>)
    requires
        at + 2 <= s.len(),
    ensures
        match value {
            Some(v) => signed_two(s@, at as int) == Some(v as int) && -9 <= v <= 99,
            None => signed_two(s@, at as int) is None,
        },
{
    let first = s[at];
    let second = s[at + 1];
    if !is_digit_char(second) {
        None
    } else if is_digit_char(first) {
        Some(10 * (digit_of(first) as i32) + digit_of(second) as i32)
    } else if first == '+' {
        Some(digit_of(second) as i32)
    } else if first == '-' {
        Some(-(digit_of(second) as i32))
    } else {
        None
    }
}

/// Reads an offset `UTC±HH:MM` as seconds east of UTC.
pub fn utc_offset(timezone: &[char]) -> (seconds: Option<i32>)
    ensures
        match seconds {
            Some(s) => utc_offset_seconds(timezone@) == Some(s as int) && -86400 < s < 86400,
            None => utc_offset_seconds(timezone@) is None,
        },
{
    if timezone.len() < 9 {
        return None;
    }
    let hours = match signed_two_at(timezone, 4) {
        Some(hours) => hours,
        None => {
            return None;
        },
    };
    let minutes = match signed_two_at(timezone, 7) {
        Some(minutes) => minutes,
        None => {
            return None;
        },
    };
    let seconds = hours * 3600 + minutes * 60;
    if !(-86400 < seconds && seconds < 86400) {
        None
    } else if timezone[3] == '+' {
        Some(seconds)
    } else {
        Some(-seconds)
    }
}

/// Finds the point in time that a due time and the user's time zone stand for.
pub fn resolve_due(datetime: &str, timezone: &str) -> (due: Result<OffsetDateTime, UnresolvedDue>)
    ensures
        due == resolved_due(datetime@, timezone@),
        due matches Ok(at) ==> at.is_well_formed(),
        due matches Ok(at) ==> (starts_with_utc(timezone@) ==> utc_offset_seconds(timezone@)
            == Some(at.offset_seconds as int)),
{
    let parsed = match parse_rfc3339(datetime) {
        Some(parsed) => parsed,
        None => {
            return Err(UnresolvedDue::Datetime);
        },
    };
    let zone_chars = chars_of(timezone);
    let utc = zone_chars.len() >= 3 && zone_chars[0] == 'U' && zone_chars[1] == 'T'
        && zone_chars[2] == 'C';
    let found = if utc {
        match utc_offset(zone_chars.as_slice()) {
            Some(seconds) => Some(local_at_offset(seconds, parsed.timestamp, parsed.nanosecond)),
            None => None,
        }
    } else {
        match zone_by_name(timezone) {
            Some(zone) => Some(local_in_zone(zone, parsed.timestamp, parsed.nanosecond)),
            None => None,
        }
    };
    match found {
        None => Err(UnresolvedDue::Timezone),
        Some(None) => Err(UnresolvedDue::LocalTime),
        Some(Some(at)) => Ok(at),
    }
}

impl TaskDueDateTime {
    /// The point in time at which the task is due, for a task that is due at a
    /// time of day: `resolved_due` of its `datetime` and `timezone`.
    pub open spec fn due_instant(self) -> Option<Result<OffsetDateTime, UnresolvedDue>> {
        match (opt_view(self.datetime), opt_view(self.timezone)) {
            (Some(datetime), Some(timezone)) => Some(resolved_due(datetime, timezone)),
            _ => None,
        }
    }

    /// The point in time at which the task is due; none for a task that is due
    /// on a day and at no time of that day.
    pub fn get_chrono_due_datetime(&self) -> (due: Option<OffsetDateTime>)
        requires
            self.due_instant() matches Some(found) ==> found is Ok,
        ensures
            due == match self.due_instant() {
                Some(found) => Some(found->Ok_0),
                None => None,
            },
            due matches Some(at) ==> at.is_well_formed(),
    {
        match (&self.datetime, &self.timezone) {
            (Some(datetime), Some(timezone)) => {
                let found = resolve_due(datetime.as_str(), timezone.as_str());
                Some(found.unwrap())
            },
            _ => None,
        }
    }

    /// The point in time at which the task is due, or why it cannot be told;
    /// none for a task that is due on a day and at no time of that day.
    pub fn try_get_chrono_due_datetime(&self) -> (due: Result<
        Option<OffsetDateTime>,
        UnresolvedDue,
    >)
        ensures
            due == match self.due_instant() {
                Some(Ok(at)) => Ok::<Option<OffsetDateTime>, UnresolvedDue>(Some(at)),
                Some(Err(why)) => Err::<Option<OffsetDateTime>, UnresolvedDue>(why),
                None => Ok::<Option<OffsetDateTime>, UnresolvedDue>(None),
            },
            due matches Ok(Some(at)) ==> at.is_well_formed(),
    {
        if let (Some(datetime), Some(timezone)) = (&self.datetime, &self.timezone) {
            if let Err(why) = resolve_due(datetime.as_str(), timezone.as_str()) {
                return Err(why);
            }
        }
        Ok(self.get_chrono_due_datetime())
    }
}

/// How long a task takes.
#[derive(Debug, Clone)]
pub struct TaskDuration {
    /// How many units the task takes; more than zero.
    pub amount: u64,
    /// The unit in which `amount` counts.
    pub unit: TaskDurationUnit,
}

/// The unit of a [`TaskDuration`].
#[derive(Debug, Clone, Copy, PartialEq, Eq, Structural)]
pub enum TaskDurationUnit {
    /// Minutes.
    Minute,
    /// Days.
    Day,
}

impl TaskDurationUnit {
    /// How many seconds one unit lasts.
    pub open spec fn seconds(self) -> int {
        match self {
            TaskDurationUnit::Minute => 60,
            TaskDurationUnit::Day => 86400,
        }
    }
}

/// The duration that `std::time::Duration::from_secs` makes of a number of whole
/// seconds.
pub uninterp spec fn duration_of_secs(secs: u64) -> Duration;

/// `std::time::Duration::from_secs`: the duration of `secs` whole seconds.
#[verifier::external_body]
fn duration_from_secs(secs: u64) -> (duration: Duration)
    ensures
        duration == duration_of_secs(secs),
{
    Duration::from_secs(secs)
}

/// A span of time as `chrono` holds it.
#[verifier::external_type_specification]
#[verifier::external_body]
pub struct ExTimeDelta(TimeDelta);

/// A time zone of the tz database.
#[verifier::external_type_specification]
#[verifier::external_body]
pub struct ExTz(Tz);

/// The most seconds that a `chrono::TimeDelta` can hold.
pub const MAX_DELTA_SECONDS: u64 = 9_223_372_036_854_775;

/// The span that `chrono::TimeDelta::minutes` makes of a number of minutes.
pub uninterp spec fn minutes_delta(minutes: i64) -> TimeDelta;

/// The span that `chrono::TimeDelta::days` makes of a number of days.
pub uninterp spec fn days_delta(days: i64) -> TimeDelta;

/// `chrono::TimeDelta::minutes`: the span of so many minutes. The crate panics
/// where the span is longer than `i64::MAX` milliseconds in either direction,
/// which the bound on the seconds keeps out.
#[verifier::external_body]
fn delta_of_minutes(minutes: i64) -> (delta: TimeDelta)
    requires
        -MAX_DELTA_SECONDS <= minutes * 60 <= MAX_DELTA_SECONDS,
    ensures
        delta == minutes_delta(minutes),
{
    TimeDelta::minutes(minutes)
}

/// `chrono::TimeDelta::days`: the span of so many days of 86400 seconds. The
/// crate panics where the span is longer than `i64::MAX` milliseconds in either
/// direction, which the bound on the seconds keeps out.
#[verifier::external_body]
fn delta_of_days(days: i64) -> (delta: TimeDelta)
    requires
        -MAX_DELTA_SECONDS <= days * 86400 <= MAX_DELTA_SECONDS,
    ensures
        delta == days_delta(days),
{
    TimeDelta::days(days)
}

impl TaskDuration {
    /// The length of the duration in seconds.
    pub open spec fn total_seconds(self) -> int {
        self.amount * self.unit.seconds()
    }

    /// The duration as a [`Duration`].
    pub fn get_duration(&self) -> (duration: Duration)
        requires
            self.total_seconds() <= u64::MAX,
        ensures
            duration == duration_of_secs(self.total_seconds() as u64),
    {
        match self.unit {
            TaskDurationUnit::Minute => duration_from_secs(self.amount * 60),
            TaskDurationUnit::Day => duration_from_secs(self.amount * 86400),
        }
    }

    /// The duration as a span of `chrono`.
    pub fn get_chrono_duration(&self) -> (delta: TimeDelta)
        requires
            self.total_seconds() <= MAX_DELTA_SECONDS,
        ensures
            delta == match self.unit {
                TaskDurationUnit::Minute => minutes_delta(self.amount as i64),
                TaskDurationUnit::Day => days_delta(self.amount as i64),
            },
    {
        match self.unit {
            TaskDurationUnit::Minute => delta_of_minutes(self.amount as i64),
            TaskDurationUnit::Day => delta_of_days(self.amount as i64),
        }
    }
}

} // verus!
