//! Reading working hours as people type them.
//!
//! A schedule is a weekly one (`Mon,Tue 9:30 to 17:30`, `M-F 9 to 5pm`), one
//! for today (`today 9:30 to 23:30`) or an end for today (`until 23:30`).
//! Times are read on the 24-hour clock or with `am` and `pm`, and come out
//! as `HH:MM`. Days are numbered from Monday, which is 0.

use vstd::prelude::*;
use vstd::string::StringExecFns;
use crate::number::{bounded_value, parse_u8, two_digits, write_two_digits};
use crate::text::{
    contains, digit_position, ends_with, fields, find_digit, find_substring, first_occurrence,
    from_chars, has_prefix, has_substring, has_suffix, lowercase, split_fields, starts_with,
    to_chars, trim, trim_end_matches, trimmed, without_trailing,
};

verus! {

/// Why a schedule could not be read.
#[derive(Clone, Debug)]
pub enum ScheduleError {
    /// A weekly schedule holds no digit, so no time.
    NoTime,
    /// This is no day of the week.
    UnknownDay(String),
    /// Two times were expected, with `to` or a dash between them.
    BadRange,
    /// This is no time.
    InvalidTimeFormat(String),
    /// This is no hour.
    InvalidHour(String),
    /// This is no minute.
    InvalidMinute(String),
    /// The hour or the minute of this time is out of range.
    InvalidTime(String),
}

/// A schedule.
#[derive(Clone, Debug)]
pub enum ParsedSchedule {
    /// The same hours on each of the days.
    Weekly { days: Vec<u8>, start: String, end: String },
    /// Hours for today.
    TodayRange { start: String, end: String },
    /// Today, until the given time.
    TodayUntil { end: String },
}

/// A `ScheduleError` as plain values.
pub enum ErrorView {
    NoTime,
    UnknownDay(Seq<char>),
    BadRange,
    InvalidTimeFormat(Seq<char>),
    InvalidHour(Seq<char>),
    InvalidMinute(Seq<char>),
    InvalidTime(Seq<char>),
}

/// A `ParsedSchedule` as plain values.
pub enum ScheduleView {
    Weekly { days: Seq<u8>, start: Seq<char>, end: Seq<char> },
    TodayRange { start: Seq<char>, end: Seq<char> },
    TodayUntil { end: Seq<char> },
}

impl DeepView for ScheduleError {
    type V = ErrorView;

    open spec fn deep_view(&self) -> ErrorView {
        match self {
            ScheduleError::NoTime => ErrorView::NoTime,
            ScheduleError::UnknownDay(s) => ErrorView::UnknownDay(s@),
            ScheduleError::BadRange => ErrorView::BadRange,
            ScheduleError::InvalidTimeFormat(s) => ErrorView::InvalidTimeFormat(s@),
            ScheduleError::InvalidHour(s) => ErrorView::InvalidHour(s@),
            ScheduleError::InvalidMinute(s) => ErrorView::InvalidMinute(s@),
            ScheduleError::InvalidTime(s) => ErrorView::InvalidTime(s@),
        }
    }
}

impl DeepView for ParsedSchedule {
    type V = ScheduleView;

    open spec fn deep_view(&self) -> ScheduleView {
        match self {
            ParsedSchedule::Weekly { days, start, end } => ScheduleView::Weekly {
                days: days@,
                start: start@,
                end: end@,
            },
            ParsedSchedule::TodayRange { start, end } => ScheduleView::TodayRange {
                start: start@,
                end: end@,
            },
            ParsedSchedule::TodayUntil { end } => ScheduleView::TodayUntil { end: end@ },
        }
    }
}

/// A time of day as it is stored: hours and minutes in two digits each.
pub open spec fn clock_text(hour: nat, minute: nat) -> Seq<char> {
    two_digits(hour) + ":"@ + two_digits(minute)
}

/// The hour on the 24-hour clock for an hour given with `am` or `pm`.
pub open spec fn hour_of_day(hour: nat, pm: bool) -> nat {
    if pm {
        if hour == 12 {
            12
        } else {
            hour + 12
        }
    } else {
        if hour == 12 {
            0
        } else {
            hour
        }
    }
}

/// A time on the 24-hour clock: hours and minutes with a colon between, or
/// the hour alone.
pub open spec fn plain_time(t: Seq<char>) -> Result<Seq<char>, ErrorView> {
    let parts = fields(t, ':');
    if parts.len() == 2 && bounded_value(parts[0], 255) is Some && bounded_value(parts[1], 255)
        is Some && bounded_value(parts[0], 255)->0 < 24 && bounded_value(parts[1], 255)->0 < 60 {
        Ok(clock_text(bounded_value(parts[0], 255)->0, bounded_value(parts[1], 255)->0))
    } else if bounded_value(t, 255) is Some && bounded_value(t, 255)->0 < 24 {
        Ok(clock_text(bounded_value(t, 255)->0, 0))
    } else {
        Err(ErrorView::InvalidTimeFormat(t))
    }
}

/// A time whose hour and minute were given with `am` or `pm`.
pub open spec fn half_day_time(t: Seq<char>, hour: nat, minute: nat, pm: bool) -> Result<
    Seq<char>,
    ErrorView,
> {
    if hour > 12 || minute >= 60 {
        Err(ErrorView::InvalidTime(t))
    } else {
        Ok(clock_text(hour_of_day(hour, pm), minute))
    }
}

/// A time given with `am` or `pm`. `t` is the whole of it, `part` what
/// stands before the `am` or `pm`.
pub open spec fn suffixed_time(t: Seq<char>, part: Seq<char>, pm: bool) -> Result<
    Seq<char>,
    ErrorView,
> {
    let parts = fields(part, ':');
    if parts.len() == 1 {
        match bounded_value(part, 255) {
            Some(hour) => half_day_time(t, hour, 0, pm),
            None => Err(ErrorView::InvalidHour(part)),
        }
    } else if parts.len() == 2 {
        match bounded_value(parts[0], 255) {
            Some(hour) => match bounded_value(parts[1], 255) {
                Some(minute) => half_day_time(t, hour, minute, pm),
                None => Err(ErrorView::InvalidMinute(parts[1])),
            },
            None => Err(ErrorView::InvalidHour(parts[0])),
        }
    } else {
        Err(ErrorView::InvalidTimeFormat(t))
    }
}

/// The time that `input` denotes, as `HH:MM`.
pub open spec fn time_of(input: Seq<char>) -> Result<Seq<char>, ErrorView> {
    let t = trimmed(input);
    let lower = lowercase(t);
    if has_suffix(lower, "pm"@) {
        suffixed_time(t, trimmed(without_trailing(lower, "pm"@)), true)
    } else if has_suffix(lower, "am"@) {
        suffixed_time(t, trimmed(without_trailing(lower, "am"@)), false)
    } else {
        plain_time(t)
    }
}

/// The two times `from` and `to`.
pub open spec fn both_times(from: Seq<char>, to: Seq<char>) -> Result<
    (Seq<char>, Seq<char>),
    ErrorView,
> {
    match time_of(from) {
        Err(e) => Err(e),
        Ok(start) => match time_of(to) {
            Err(e) => Err(e),
            Ok(end) => Ok((start, end)),
        },
    }
}

/// The two times that `input` denotes: two times with ` to ` between them
/// once, or with one dash between them.
pub open spec fn range_of(input: Seq<char>) -> Result<(Seq<char>, Seq<char>), ErrorView> {
    match first_occurrence(input, " to "@) {
        Some(at) => {
            let rest = input.skip(at + 4);
            if has_substring(rest, " to "@) {
                Err(ErrorView::BadRange)
            } else {
                both_times(trimmed(input.take(at)), trimmed(rest))
            }
        },
        None => {
            let parts = fields(input, '-');
            if parts.len() == 2 {
                both_times(trimmed(parts[0]), trimmed(parts[1]))
            } else {
                Err(ErrorView::BadRange)
            }
        },
    }
}

/// The day of the week that a name or an abbreviation in lowercase stands for.
pub open spec fn day_named(l: Seq<char>) -> Option<u8> {
    if l == "m"@ || l == "mon"@ || l == "monday"@ {
        Some(0u8)
    } else if l == "tu"@ || l == "tue"@ || l == "tues"@ || l == "tuesday"@ {
        Some(1u8)
    } else if l == "w"@ || l == "wed"@ || l == "wednesday"@ {
        Some(2u8)
    } else if l == "th"@ || l == "thu"@ || l == "thur"@ || l == "thurs"@ || l == "thursday"@ {
        Some(3u8)
    } else if l == "f"@ || l == "fri"@ || l == "friday"@ {
        Some(4u8)
    } else if l == "sa"@ || l == "sat"@ || l == "saturday"@ {
        Some(5u8)
    } else if l == "su"@ || l == "sun"@ || l == "sunday"@ {
        Some(6u8)
    } else {
        None
    }
}

/// The day of the week that `input` stands for, in any letter case.
pub open spec fn day_of(input: Seq<char>) -> Result<u8, ErrorView> {
    match day_named(lowercase(input)) {
        Some(day) => Ok(day),
        None => Err(ErrorView::UnknownDay(input)),
    }
}

/// The days from `from` to `to`, passing from Sunday on to Monday where
/// `to` comes earlier in the week.
pub open spec fn day_span(from: u8, to: u8) -> Seq<u8> {
    if from <= to {
        Seq::new((to - from + 1) as nat, |i: int| (from + i) as u8)
    } else {
        Seq::new((7 - from) as nat, |i: int| (from + i) as u8) + Seq::new(
            (to + 1) as nat,
            |i: int| i as u8,
        )
    }
}

/// The days that the pieces name, in their order; the first piece that
/// names none is the error.
pub open spec fn listed_days(pieces: Seq<Seq<char>>) -> Result<Seq<u8>, ErrorView>
    decreases pieces.len(),
{
    if pieces.len() == 0 {
        Ok(Seq::empty())
    } else {
        match listed_days(pieces.drop_last()) {
            Err(e) => Err(e),
            Ok(days) => match day_of(trimmed(pieces.last())) {
                Err(e) => Err(e),
                Ok(day) => Ok(days.push(day)),
            },
        }
    }
}

/// The days below `limit` that occur in `days`, each once, in ascending order.
pub open spec fn ascending_days(days: Seq<u8>, limit: nat) -> Seq<u8>
    decreases limit,
{
    if limit == 0 {
        Seq::empty()
    } else {
        let below = ascending_days(days, (limit - 1) as nat);
        if days.contains((limit - 1) as u8) {
            below.push((limit - 1) as u8)
        } else {
            below
        }
    }
}

/// The days that `input` denotes: a span of days with a dash between the
/// first and the last, or a list of days with commas between them. A list
/// comes out in the order of the week, each day once.
pub open spec fn days_of(input: Seq<char>) -> Result<Seq<u8>, ErrorView> {
    let s = lowercase(trimmed(input));
    let ends = fields(s, '-');
    let pieces = fields(s, ',');
    if ends.len() == 2 && pieces.len() == 1 {
        match day_of(trimmed(ends[0])) {
            Err(e) => Err(e),
            Ok(from) => match day_of(trimmed(ends[1])) {
                Err(e) => Err(e),
                Ok(to) => Ok(day_span(from, to)),
            },
        }
    } else {
        match listed_days(pieces) {
            Err(e) => Err(e),
            Ok(days) => Ok(ascending_days(days, 7)),
        }
    }
}

/// The schedule for today that ends at the time `text`.
pub open spec fn until(text: Seq<char>) -> Result<ScheduleView, ErrorView> {
    match time_of(text) {
        Err(e) => Err(e),
        Ok(end) => Ok(ScheduleView::TodayUntil { end }),
    }
}

/// The schedule for today with the hours `text`.
pub open spec fn today(text: Seq<char>) -> Result<ScheduleView, ErrorView> {
    match range_of(text) {
        Err(e) => Err(e),
        Ok((start, end)) => Ok(ScheduleView::TodayRange { start, end }),
    }
}

/// The weekly schedule with the days `days` and the hours `hours`.
pub open spec fn weekly(days: Seq<char>, hours: Seq<char>) -> Result<ScheduleView, ErrorView> {
    match days_of(days) {
        Err(e) => Err(e),
        Ok(days) => match range_of(hours) {
            Err(e) => Err(e),
            Ok((start, end)) => Ok(ScheduleView::Weekly { days, start, end }),
        },
    }
}

/// The schedule that `input` denotes. In a weekly schedule the days are
/// what stands before the first digit.
pub open spec fn schedule_of(input: Seq<char>) -> Result<ScheduleView, ErrorView> {
    let s = lowercase(trimmed(input));
    if has_prefix(s, "until "@) {
        until(trimmed(s.skip(6)))
    } else if has_prefix(s, "today until "@) {
        until(trimmed(s.skip(12)))
    } else if has_prefix(s, "today "@) {
        today(trimmed(s.skip(6)))
    } else {
        match digit_position(s) {
            None => Err(ErrorView::NoTime),
            Some(at) => weekly(trimmed(s.take(at)), trimmed(s.skip(at))),
        }
    }
}

/// The full name of a day of the week.
pub open spec fn day_name_of(day: u8) -> Seq<char> {
    if day == 0 {
        "Monday"@
    } else if day == 1 {
        "Tuesday"@
    } else if day == 2 {
        "Wednesday"@
    } else if day == 3 {
        "Thursday"@
    } else if day == 4 {
        "Friday"@
    } else if day == 5 {
        "Saturday"@
    } else if day == 6 {
        "Sunday"@
    } else {
        "Unknown"@
    }
}

/// The short name of a day of the week.
pub open spec fn short_day_name(day: u8) -> Seq<char> {
    if day == 0 {
        "Mon"@
    } else if day == 1 {
        "Tue"@
    } else if day == 2 {
        "Wed"@
    } else if day == 3 {
        "Thu"@
    } else if day == 4 {
        "Fri"@
    } else if day == 5 {
        "Sat"@
    } else if day == 6 {
        "Sun"@
    } else {
        "?"@
    }
}

/// The short names of `days` with `, ` between them.
pub open spec fn short_names(days: Seq<u8>) -> Seq<char>
    decreases days.len(),
{
    if days.len() == 0 {
        Seq::empty()
    } else if days.len() == 1 {
        short_day_name(days[0])
    } else {
        short_names(days.drop_last()) + ", "@ + short_day_name(days.last())
    }
}

/// How a set of days is shown: the working week, the weekend and the whole
/// week by a name of their own, any other by the short names of its days.
pub open spec fn days_text(days: Seq<u8>) -> Seq<char> {
    if days == seq![0u8, 1u8, 2u8, 3u8, 4u8] {
        "Mon-Fri"@
    } else if days == seq![0u8, 1u8, 2u8, 3u8, 4u8, 5u8, 6u8] {
        "Every day"@
    } else if days == seq![5u8, 6u8] {
        "Sat-Sun"@
    } else {
        short_names(days)
    }
}

/// What reading a time came to, as plain values.
pub open spec fn time_outcome(r: Result<String, ScheduleError>) -> Result<Seq<char>, ErrorView> {
    match r {
        Ok(t) => Ok(t@),
        Err(e) => Err(e.deep_view()),
    }
}

/// What reading two times came to, as plain values.
pub open spec fn range_outcome(r: Result<(String, String), ScheduleError>) -> Result<
    (Seq<char>, Seq<char>),
    ErrorView,
> {
    match r {
        Ok((start, end)) => Ok((start@, end@)),
        Err(e) => Err(e.deep_view()),
    }
}

/// What reading a day came to, as plain values.
pub open spec fn day_outcome(r: Result<u8, ScheduleError>) -> Result<u8, ErrorView> {
    match r {
        Ok(day) => Ok(day),
        Err(e) => Err(e.deep_view()),
    }
}

/// What reading days came to, as plain values.
pub open spec fn days_outcome(r: Result<Vec<u8>, ScheduleError>) -> Result<Seq<u8>, ErrorView> {
    match r {
        Ok(days) => Ok(days@),
        Err(e) => Err(e.deep_view()),
    }
}

/// What reading a schedule came to, as plain values.
pub open spec fn schedule_outcome(r: Result<ParsedSchedule, ScheduleError>) -> Result<
    ScheduleView,
    ErrorView,
> {
    match r {
        Ok(schedule) => Ok(schedule.deep_view()),
        Err(e) => Err(e.deep_view()),
    }
}

impl ScheduleError {
    /// What the user is told.
    pub open spec fn text(self) -> Seq<char> {
        match self {
            ScheduleError::NoTime => "Could not find time in schedule"@,
            ScheduleError::UnknownDay(s) => "Unknown day: "@ + s@,
            ScheduleError::BadRange => "Expected format: HH:MM to HH:MM"@,
            ScheduleError::InvalidTimeFormat(s) => "Invalid time format: "@ + s@,
            ScheduleError::InvalidHour(s) => "Invalid hour: "@ + s@,
            ScheduleError::InvalidMinute(s) => "Invalid minute: "@ + s@,
            ScheduleError::InvalidTime(s) => "Invalid time: "@ + s@,
        }
    }

    /// What to tell the user.
    pub fn message(&self) -> (m: String)
        ensures
            m@ == self.text(),
    {
        match self {
            ScheduleError::NoTime => "Could not find time in schedule".to_string(),
            ScheduleError::UnknownDay(s) => {
                let mut m = "Unknown day: ".to_string();
                m.append(s.as_str());
                m
            },
            ScheduleError::BadRange => "Expected format: HH:MM to HH:MM".to_string(),
            ScheduleError::InvalidTimeFormat(s) => {
                let mut m = "Invalid time format: ".to_string();
                m.append(s.as_str());
                m
            },
            ScheduleError::InvalidHour(s) => {
                let mut m = "Invalid hour: ".to_string();
                m.append(s.as_str());
                m
            },
            ScheduleError::InvalidMinute(s) => {
                let mut m = "Invalid minute: ".to_string();
                m.append(s.as_str());
                m
            },
            ScheduleError::InvalidTime(s) => {
                let mut m = "Invalid time: ".to_string();
                m.append(s.as_str());
                m
            },
        }
    }
}

/// Writes a time of day as it is stored.
pub fn format_clock(hour: u8, minute: u8) -> (text: String)
    ensures
        text@ == clock_text(hour as nat, minute as nat),
{
    let mut text = write_two_digits(hour);
    text.append(":");
    text.append(write_two_digits(minute).as_str());
    text
}

/// Reads a time on the 24-hour clock.
fn parse_plain_time(t: &str) -> (r: Result<String, ScheduleError>)
    ensures
        time_outcome(r) == plain_time(t@),
{
    let parts = split_fields(t, ':');
    if parts.len() == 2 {
        assert(parts.deep_view()[0] == parts[0]@);
        assert(parts.deep_view()[1] == parts[1]@);
        match parse_u8(parts[0].as_str()) {
            Some(hour) => match parse_u8(parts[1].as_str()) {
                Some(minute) => {
                    if hour < 24 && minute < 60 {
                        return Ok(format_clock(hour, minute));
                    }
                },
                None => {},
            },
            None => {},
        }
    }
    match parse_u8(t) {
        Some(hour) => {
            if hour < 24 {
                return Ok(format_clock(hour, 0));
            }
        },
        None => {},
    }
    Err(ScheduleError::InvalidTimeFormat(t.to_string()))
}

/// Finishes a time given with `am` or `pm`.
fn finish_half_day(t: &str, hour: u8, minute: u8, pm: bool) -> (r: Result<String, ScheduleError>)
    ensures
        time_outcome(r) == half_day_time(t@, hour as nat, minute as nat, pm),
{
    if hour > 12 || minute >= 60 {
        return Err(ScheduleError::InvalidTime(t.to_string()));
    }
    let hour_24: u8 = if pm {
        if hour == 12 {
            12
        } else {
            hour + 12
        }
    } else {
        if hour == 12 {
            0
        } else {
            hour
        }
    };
    Ok(format_clock(hour_24, minute))
}

/// Reads a time given with `am` or `pm`.
fn parse_suffixed_time(t: &str, part: &str, pm: bool) -> (r: Result<String, ScheduleError>)
    ensures
        time_outcome(r) == suffixed_time(t@, part@, pm),
{
    let parts = split_fields(part, ':');
    if parts.len() == 1 {
        match parse_u8(part) {
            Some(hour) => finish_half_day(t, hour, 0, pm),
            None => Err(ScheduleError::InvalidHour(part.to_string())),
        }
    } else if parts.len() == 2 {
        assert(parts.deep_view()[0] == parts[0]@);
        assert(parts.deep_view()[1] == parts[1]@);
        match parse_u8(parts[0].as_str()) {
            Some(hour) => match parse_u8(parts[1].as_str()) {
                Some(minute) => finish_half_day(t, hour, minute, pm),
                None => Err(ScheduleError::InvalidMinute(parts[1].clone())),
            },
            None => Err(ScheduleError::InvalidHour(parts[0].clone())),
        }
    } else {
        Err(ScheduleError::InvalidTimeFormat(t.to_string()))
    }
}

/// Reads a time of day.
pub fn parse_time(input: &str) -> (r: Result<String, ScheduleError>)
    ensures
        time_outcome(r) == time_of(input@),
{
    let t = trim(input);
    let lower = t.as_str().to_lowercase();
    if ends_with(lower.as_str(), "pm") {
        let part = trim(trim_end_matches(lower.as_str(), "pm").as_str());
        parse_suffixed_time(t.as_str(), part.as_str(), true)
    } else if ends_with(lower.as_str(), "am") {
        let part = trim(trim_end_matches(lower.as_str(), "am").as_str());
        parse_suffixed_time(t.as_str(), part.as_str(), false)
    } else {
        parse_plain_time(t.as_str())
    }
}

/// Reads two times.
fn parse_both_times(from: &str, to: &str) -> (r: Result<(String, String), ScheduleError>)
    ensures
        range_outcome(r) == both_times(from@, to@),
{
    match parse_time(from) {
        Err(e) => Err(e),
        Ok(start) => match parse_time(to) {
            Err(e) => Err(e),
            Ok(end) => Ok((start, end)),
        },
    }
}

/// Reads two times with ` to ` or a dash between them.
pub fn parse_time_range(input: &str) -> (r: Result<(String, String), ScheduleError>)
    ensures
        range_outcome(r) == range_of(input@),
{
    let v = to_chars(input);
    let separator = to_chars(" to ");
    proof {
        reveal_strlit(" to ");
    }
    match find_substring(&v, &separator) {
        Some(at) => {
            let rest = from_chars(&v, at + 4, v.len());
            assert(rest@ =~= input@.skip(at + 4));
            if contains(rest.as_str(), " to ") {
                Err(ScheduleError::BadRange)
            } else {
                let first = from_chars(&v, 0, at);
                assert(first@ =~= input@.take(at as int));
                parse_both_times(trim(first.as_str()).as_str(), trim(rest.as_str()).as_str())
            }
        },
        None => {
            let parts = split_fields(input, '-');
            if parts.len() == 2 {
                assert(parts.deep_view()[0] == parts[0]@);
                assert(parts.deep_view()[1] == parts[1]@);
                parse_both_times(
                    trim(parts[0].as_str()).as_str(),
                    trim(parts[1].as_str()).as_str(),
                )
            } else {
                Err(ScheduleError::BadRange)
            }
        },
    }
}

/// Reads a day of the week.
pub fn parse_single_day(input: &str) -> (r: Result<u8, ScheduleError>)
    ensures
        day_outcome(r) == day_of(input@),
        r matches Ok(day) ==> day < 7,
{
    let lower = input.to_lowercase();
    let l = lower.as_str();
    if l.eq("m") || l.eq("mon") || l.eq("monday") {
        Ok(0)
    } else if l.eq("tu") || l.eq("tue") || l.eq("tues") || l.eq("tuesday") {
        Ok(1)
    } else if l.eq("w") || l.eq("wed") || l.eq("wednesday") {
        Ok(2)
    } else if l.eq("th") || l.eq("thu") || l.eq("thur") || l.eq("thurs") || l.eq("thursday") {
        Ok(3)
    } else if l.eq("f") || l.eq("fri") || l.eq("friday") {
        Ok(4)
    } else if l.eq("sa") || l.eq("sat") || l.eq("saturday") {
        Ok(5)
    } else if l.eq("su") || l.eq("sun") || l.eq("sunday") {
        Ok(6)
    } else {
        Err(ScheduleError::UnknownDay(input.to_string()))
    }
}

/// The days from `from` to `to`.
fn span_days(from: u8, to: u8) -> (days: Vec<u8>)
    requires
        from < 7,
        to < 7,
    ensures
        days@ == day_span(from, to),
{
    let mut days: Vec<u8> = Vec::new();
    let last: u8 = if from <= to {
        to
    } else {
        6
    };
    let mut day: u8 = from;
    while day <= last
        invariant
            from <= day <= last + 1,
            last < 7,
            days@ == Seq::new((day - from) as nat, |i: int| (from + i) as u8),
        decreases last + 1 - day,
    {
        days.push(day);
        day += 1;
        assert(days@ =~= Seq::new((day - from) as nat, |i: int| (from + i) as u8));
    }
    if from > to {
        let ghost first = days@;
        let mut day: u8 = 0;
        while day <= to
            invariant
                day <= to + 1,
                to < 7,
                days@ == first + Seq::new(day as nat, |i: int| i as u8),
            decreases to + 1 - day,
        {
            days.push(day);
            day += 1;
            assert(days@ =~= first + Seq::new(day as nat, |i: int| i as u8));
        }
    }
    days
}

/// Whether `day` is one of `days`.
fn has_day(days: &Vec<u8>, day: u8) -> (b: bool)
    ensures
        b == days@.contains(day),
{
    let mut i: usize = 0;
    while i < days.len()
        invariant
            i <= days.len(),
            forall|k: int| 0 <= k < i ==> days@[k] != day,
        decreases days.len() - i,
    {
        if days[i] == day {
            return true;
        }
        i += 1;
    }
    false
}

/// Reads a list of days.
fn parse_listed_days(pieces: &Vec<String>) -> (r: Result<Vec<u8>, ScheduleError>)
    ensures
        days_outcome(r) == listed_days(pieces.deep_view()),
{
    let mut days: Vec<u8> = Vec::new();
    let ghost all = pieces.deep_view();
    let mut i: usize = 0;
    while i < pieces.len()
        invariant
            i <= pieces.len(),
            all == pieces.deep_view(),
            listed_days(all.take(i as int)) == Ok::<Seq<u8>, ErrorView>(days@),
        decreases pieces.len() - i,
    {
        assert(all.take(i + 1).drop_last() =~= all.take(i as int));
        assert(all.take(i + 1).last() == pieces[i as int]@);
        match parse_single_day(trim(pieces[i].as_str()).as_str()) {
            Ok(day) => {
                days.push(day);
            },
            Err(e) => {
                proof {
                    lemma_listed_days_fail_early(all, i + 1);
                }
                return Err(e);
            },
        }
        i += 1;
    }
    assert(all.take(pieces.len() as int) =~= all);
    Ok(days)
}

/// A list of days that fails on its first pieces fails as a whole, in the same way.
pub proof fn lemma_listed_days_fail_early(pieces: Seq<Seq<char>>, n: int)
    requires
        0 <= n <= pieces.len(),
        listed_days(pieces.take(n)) is Err,
    ensures
        listed_days(pieces) == listed_days(pieces.take(n)),
    decreases pieces.len() - n,
{
    if n == pieces.len() {
        assert(pieces.take(n) =~= pieces);
    } else {
        assert(pieces.drop_last().take(n) =~= pieces.take(n));
        lemma_listed_days_fail_early(pieces.drop_last(), n);
    }
}

/// The days of `days` in the order of the week, each once.
fn in_week_order(days: &Vec<u8>) -> (ordered: Vec<u8>)
    ensures
        ordered@ == ascending_days(days@, 7),
{
    let mut ordered: Vec<u8> = Vec::new();
    let mut day: u8 = 0;
    while day < 7
        invariant
            day <= 7,
            ordered@ == ascending_days(days@, day as nat),
        decreases 7 - day,
    {
        if has_day(days, day) {
            ordered.push(day);
        }
        day += 1;
    }
    ordered
}

/// Reads days of the week: a span or a list.
pub fn parse_days(input: &str) -> (r: Result<Vec<u8>, ScheduleError>)
    ensures
        days_outcome(r) == days_of(input@),
{
    let s = trim(input).as_str().to_lowercase();
    let ends = split_fields(s.as_str(), '-');
    let pieces = split_fields(s.as_str(), ',');
    if ends.len() == 2 && pieces.len() == 1 {
        assert(ends.deep_view()[0] == ends[0]@);
        assert(ends.deep_view()[1] == ends[1]@);
        match parse_single_day(trim(ends[0].as_str()).as_str()) {
            Err(e) => Err(e),
            Ok(from) => match parse_single_day(trim(ends[1].as_str()).as_str()) {
                Err(e) => Err(e),
                Ok(to) => Ok(span_days(from, to)),
            },
        }
    } else {
        match parse_listed_days(&pieces) {
            Err(e) => Err(e),
            Ok(days) => Ok(in_week_order(&days)),
        }
    }
}

/// Reads the end of today's hours.
fn parse_until(text: &str) -> (r: Result<ParsedSchedule, ScheduleError>)
    ensures
        schedule_outcome(r) == until(text@),
{
    match parse_time(text) {
        Err(e) => Err(e),
        Ok(end) => Ok(ParsedSchedule::TodayUntil { end }),
    }
}

/// Reads a schedule.
pub fn parse_schedule(input: &str) -> (r: Result<ParsedSchedule, ScheduleError>)
    ensures
        schedule_outcome(r) == schedule_of(input@),
{
    let s = trim(input).as_str().to_lowercase();
    let v = to_chars(s.as_str());
    proof {
        reveal_strlit("until ");
        reveal_strlit("today until ");
        reveal_strlit("today ");
    }
    if starts_with(s.as_str(), "until ") {
        let rest = from_chars(&v, 6, v.len());
        assert(rest@ =~= s@.skip(6));
        parse_until(trim(rest.as_str()).as_str())
    } else if starts_with(s.as_str(), "today until ") {
        let rest = from_chars(&v, 12, v.len());
        assert(rest@ =~= s@.skip(12));
        parse_until(trim(rest.as_str()).as_str())
    } else if starts_with(s.as_str(), "today ") {
        let rest = from_chars(&v, 6, v.len());
        assert(rest@ =~= s@.skip(6));
        match parse_time_range(trim(rest.as_str()).as_str()) {
            Err(e) => Err(e),
            Ok((start, end)) => Ok(ParsedSchedule::TodayRange { start, end }),
        }
    } else {
        match find_digit(&v) {
            None => Err(ScheduleError::NoTime),
            Some(at) => {
                let days_part = from_chars(&v, 0, at);
                let time_part = from_chars(&v, at, v.len());
                assert(days_part@ =~= s@.take(at as int));
                assert(time_part@ =~= s@.skip(at as int));
                match parse_days(trim(days_part.as_str()).as_str()) {
                    Err(e) => Err(e),
                    Ok(days) => match parse_time_range(trim(time_part.as_str()).as_str()) {
                        Err(e) => Err(e),
                        Ok((start, end)) => Ok(ParsedSchedule::Weekly { days, start, end }),
                    },
                }
            },
        }
    }
}

/// The full name of a day of the week.
pub fn day_name(day: u8) -> (name: &'static str)
    ensures
        name@ == day_name_of(day),
{
    if day == 0 {
        "Monday"
    } else if day == 1 {
        "Tuesday"
    } else if day == 2 {
        "Wednesday"
    } else if day == 3 {
        "Thursday"
    } else if day == 4 {
        "Friday"
    } else if day == 5 {
        "Saturday"
    } else if day == 6 {
        "Sunday"
    } else {
        "Unknown"
    }
}

/// The short name of a day of the week.
pub fn short_name(day: u8) -> (name: &'static str)
    ensures
        name@ == short_day_name(day),
{
    if day == 0 {
        "Mon"
    } else if day == 1 {
        "Tue"
    } else if day == 2 {
        "Wed"
    } else if day == 3 {
        "Thu"
    } else if day == 4 {
        "Fri"
    } else if day == 5 {
        "Sat"
    } else if day == 6 {
        "Sun"
    } else {
        "?"
    }
}

/// Whether `days` are the `count` days from `first` on.
fn is_run(days: &[u8], first: u8, count: usize) -> (b: bool)
    requires
        first + count <= 7,
    ensures
        b == (days@ == Seq::new(count as nat, |i: int| (first + i) as u8)),
{
    if days.len() != count {
        return false;
    }
    let ghost run = Seq::new(count as nat, |i: int| (first + i) as u8);
    let mut i: usize = 0;
    while i < count
        invariant
            i <= count,
            days.len() == count,
            first + count <= 7,
            run == Seq::new(count as nat, |i: int| (first + i) as u8),
            forall|k: int| 0 <= k < i ==> days@[k] == run[k],
        decreases count - i,
    {
        if days[i] != first + i as u8 {
            assert(days@[i as int] != run[i as int]);
            return false;
        }
        i += 1;
    }
    assert(days@ =~= run);
    true
}

/// How a set of days is shown.
pub fn days_to_names(days: &[u8]) -> (text: String)
    ensures
        text@ == days_text(days@),
{
    assert(seq![0u8, 1u8, 2u8, 3u8, 4u8] =~= Seq::new(5, |i: int| (0u8 + i) as u8));
    assert(seq![0u8, 1u8, 2u8, 3u8, 4u8, 5u8, 6u8] =~= Seq::new(7, |i: int| (0u8 + i) as u8));
    assert(seq![5u8, 6u8] =~= Seq::new(2, |i: int| (5u8 + i) as u8));
    if is_run(days, 0, 5) {
        return "Mon-Fri".to_string();
    }
    if is_run(days, 0, 7) {
        return "Every day".to_string();
    }
    if is_run(days, 5, 2) {
        return "Sat-Sun".to_string();
    }
    let mut text = String::new();
    let mut i: usize = 0;
    while i < days.len()
        invariant
            i <= days.len(),
            text@ == short_names(days@.take(i as int)),
        decreases days.len() - i,
    {
        assert(days@.take(i + 1).drop_last() =~= days@.take(i as int));
        if i > 0 {
            text.append(", ");
        } else {
            assert(Seq::<char>::empty() + short_day_name(days@[0]) =~= short_day_name(days@[0]));
        }
        text.append(short_name(days[i]));
        i += 1;
    }
    assert(days@.take(days.len() as int) =~= days@);
    text
}

/// Whether `text` is a time of day as it is stored.
pub open spec fn is_clock_text(text: Seq<char>) -> bool {
    exists|hour: nat, minute: nat| hour < 24 && minute < 60 && text == #[trigger] clock_text(
        hour,
        minute,
    )
}

/// A time that is read is a time of day: its hour is below 24 and its
/// minute below 60, whatever was typed.
pub proof fn lemma_time_is_well_formed(input: Seq<char>)
    ensures
        time_of(input) matches Ok(text) ==> is_clock_text(text),
{
    let t = trimmed(input);
    let lower = lowercase(t);
    if has_suffix(lower, "pm"@) {
        lemma_suffixed_time_is_well_formed(t, trimmed(without_trailing(lower, "pm"@)), true);
    } else if has_suffix(lower, "am"@) {
        lemma_suffixed_time_is_well_formed(t, trimmed(without_trailing(lower, "am"@)), false);
    } else {
        let parts = fields(t, ':');
        if plain_time(t) is Ok {
            if parts.len() == 2 && bounded_value(parts[0], 255) is Some && bounded_value(
                parts[1],
                255,
            ) is Some && bounded_value(parts[0], 255)->0 < 24 && bounded_value(parts[1], 255)->0
                < 60 {
                assert(plain_time(t)->Ok_0 == clock_text(
                    bounded_value(parts[0], 255)->0,
                    bounded_value(parts[1], 255)->0,
                ));
            } else {
                assert(plain_time(t)->Ok_0 == clock_text(bounded_value(t, 255)->0, 0));
            }
        }
    }
}

/// A time given with `am` or `pm` that is read is a time of day.
pub proof fn lemma_suffixed_time_is_well_formed(t: Seq<char>, part: Seq<char>, pm: bool)
    ensures
        suffixed_time(t, part, pm) matches Ok(text) ==> is_clock_text(text),
{
    let parts = fields(part, ':');
    if suffixed_time(t, part, pm) is Ok {
        if parts.len() == 1 {
            let hour = bounded_value(part, 255)->0;
            assert(suffixed_time(t, part, pm)->Ok_0 == clock_text(hour_of_day(hour, pm), 0));
        } else {
            let hour = bounded_value(parts[0], 255)->0;
            let minute = bounded_value(parts[1], 255)->0;
            assert(suffixed_time(t, part, pm)->Ok_0 == clock_text(hour_of_day(hour, pm), minute));
        }
    }
}

/// The days that are read are days of the week.
pub proof fn lemma_days_are_days(input: Seq<char>)
    ensures
        days_of(input) matches Ok(days) ==> forall|i: int|
            0 <= i < days.len() ==> #[trigger] days[i] < 7,
{
    let s = lowercase(trimmed(input));
    let ends = fields(s, '-');
    let pieces = fields(s, ',');
    if !(ends.len() == 2 && pieces.len() == 1) {
        if listed_days(pieces) is Ok {
            lemma_ascending_days_are_below(listed_days(pieces)->Ok_0, 7);
        }
    }
}

/// The days of a list in the order of the week lie below the limit, and
/// each of them follows a smaller one.
pub proof fn lemma_ascending_days_are_below(days: Seq<u8>, limit: nat)
    requires
        limit <= 256,
    ensures
        forall|i: int|
            0 <= i < ascending_days(days, limit).len() ==> (#[trigger] ascending_days(
                days,
                limit,
            )[i]) < limit,
        forall|i: int, j: int|
            0 <= i < j < ascending_days(days, limit).len() ==> ascending_days(days, limit)[i]
                < ascending_days(days, limit)[j],
    decreases limit,
{
    if limit > 0 {
        lemma_ascending_days_are_below(days, (limit - 1) as nat);
        let below = ascending_days(days, (limit - 1) as nat);
        let all = ascending_days(days, limit);
        assert forall|i: int| 0 <= i < all.len() implies (#[trigger] all[i]) < limit by {
            if i < below.len() {
                assert(all[i] == below[i]);
            }
        }
        assert forall|i: int, j: int| 0 <= i < j < all.len() implies all[i] < all[j] by {
            assert(all[i] == below[i]);
            if j < below.len() {
                assert(all[j] == below[j]);
            }
        }
    }
}

} // verus!
