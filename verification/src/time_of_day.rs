//! Wall-clock time of day: the model the dialogue engine and the
//! dispatcher work with, plus the dispatcher's eligibility rule.

use crate::text::{all_digits, digits_val, parse_clock_field, split_on, split_str};
use chrono::Timelike;
use vstd::prelude::*;

verus! {

/// A wall-clock time of day, no timezone, no date.
#[derive(Clone, Copy, PartialEq, Eq, Structural, Debug)]
pub struct TimeOfDay {
    pub hour: u32,
    pub minute: u32,
    pub second: u32,
}

impl TimeOfDay {
    /// A well-formed time of day.
    pub open spec fn wf(self) -> bool {
        self.hour < 24 && self.minute < 60 && self.second < 60
    }

    /// Seconds elapsed since midnight.
    pub open spec fn second_of_day(self) -> int {
        self.hour * 3600 + self.minute * 60 + self.second
    }

    /// Whole minutes elapsed since midnight (the second is dropped).
    pub open spec fn minute_of_day(self) -> int {
        self.hour * 60 + self.minute
    }

    pub fn new(hour: u32, minute: u32, second: u32) -> (r: TimeOfDay)
        requires
            hour < 24,
            minute < 60,
            second < 60,
        ensures
            r == (TimeOfDay { hour, minute, second }),
            r.wf(),
    {
        TimeOfDay { hour, minute, second }
    }
}

/// A profile is due at tick time `now` exactly when `now` falls inside the
/// minute named by its notification time: both times floored to the minute
/// are equal.
pub open spec fn spec_eligible(now: TimeOfDay, notification_time: TimeOfDay) -> bool {
    now.minute_of_day() == notification_time.minute_of_day()
}

/// The dispatcher's per-profile time match.
pub fn eligible(now: TimeOfDay, notification_time: TimeOfDay) -> (r: bool)
    requires
        now.wf(),
        notification_time.wf(),
    ensures
        r == spec_eligible(now, notification_time),
{
    now.hour == notification_time.hour && now.minute == notification_time.minute
}

/// A well-formed notification time input: exactly one colon, digits on both
/// sides, an hour below 24 and a minute below 60.
pub open spec fn valid_time_input(s: Seq<char>) -> bool {
    let parts = split_on(s, ':');
    parts.len() == 2 && parts[0].len() > 0 && all_digits(parts[0]) && digits_val(parts[0]) <= 23
        && parts[1].len() > 0 && all_digits(parts[1]) && digits_val(parts[1]) <= 59
}

/// The time a valid `HH:MM` input names; its second is always zero.
pub open spec fn time_of_input(s: Seq<char>) -> TimeOfDay {
    let parts = split_on(s, ':');
    TimeOfDay {
        hour: digits_val(parts[0]) as u32,
        minute: digits_val(parts[1]) as u32,
        second: 0,
    }
}

/// Parses an `HH:MM` notification time; the second is set to zero. Anything
/// else — missing or extra colon, non-digits, out-of-range fields — fails.
pub fn parse_time(s: &str) -> (r: Option<TimeOfDay>)
    ensures
        r is Some <==> valid_time_input(s@),
        r is Some ==> r->0 == time_of_input(s@) && r->0.wf(),
{
    let parts = split_str(s, ':');
    if parts.len() != 2 {
        return None;
    }
    let hour = match parse_clock_field(parts[0].as_str()) {
        Some(h) => h,
        None => {
            return None;
        },
    };
    let minute = match parse_clock_field(parts[1].as_str()) {
        Some(m) => m,
        None => {
            return None;
        },
    };
    if hour > 23 || minute > 59 {
        return None;
    }
    Some(TimeOfDay::new(hour, minute, 0))
}

/// Relies on chrono: `Local::now().time()` is the local wall-clock time of
/// day, and `NaiveTime`'s `hour()`, `minute()` and `second()` return values
/// below 24, 60 and 60. The result depends on the clock, so nothing more is
/// promised of it.
#[verifier::external_body]
pub(crate) fn current_time_of_day() -> (r: TimeOfDay)
    ensures
        r.wf(),
{
    let t = chrono::Local::now().time();
    TimeOfDay { hour: t.hour(), minute: t.minute(), second: t.second() }
}

/// For well-formed times the minute floor is the second count divided by 60.
pub proof fn lemma_minute_of_day_is_second_div(t: TimeOfDay)
    requires
        t.wf(),
    ensures
        t.minute_of_day() == t.second_of_day() / 60,
{
    assert(t.second_of_day() == t.minute_of_day() * 60 + t.second);
    assert((t.minute_of_day() * 60 + t.second) / 60 == t.minute_of_day()) by (nonlinear_arith)
        requires
            0 <= t.second < 60,
    ;
}

/// Ticks 60 or more seconds apart within one day never both fall inside the
/// same minute, so a profile is due at most once per matching minute per day.
pub proof fn lemma_tick_fires_at_most_once(
    t1: TimeOfDay,
    t2: TimeOfDay,
    notification_time: TimeOfDay,
)
    requires
        t1.wf(),
        t2.wf(),
        t1.second_of_day() + 60 <= t2.second_of_day(),
    ensures
        !(spec_eligible(t1, notification_time) && spec_eligible(t2, notification_time)),
{
    lemma_minute_of_day_is_second_div(t1);
    lemma_minute_of_day_is_second_div(t2);
    assert(t1.second_of_day() / 60 < t2.second_of_day() / 60) by (nonlinear_arith)
        requires
            0 <= t1.second_of_day(),
            t1.second_of_day() + 60 <= t2.second_of_day(),
    ;
}

} // verus!
