//! Daily recurring triggers: how a trigger is registered from `HH:MM`, when
//! it fires next, and what the actor is asked to evaluate when it fires.

use vstd::prelude::*;
use chrono::{Datelike, Timelike};
use crate::text::{decimal_u32, parse_u32, split, split_at_char};

verus! {

/// After its first occurrence a trigger recurs with this period, counted
/// from the instant it was due and not from the moment its callback ended.
pub const REPEAT_SECONDS: i64 = 86_400;

/// A daily trigger: a time of day and the id under which its callback is
/// registered.
#[derive(Debug)]
pub struct TimedEvent {
    /// Hour and minute of the local wall clock.
    pub time: (u32, u32),
    pub id: String,
}

/// A calendar day.
#[derive(Clone, Copy, Debug, PartialEq, Eq, Structural)]
pub struct Date {
    pub year: i32,
    pub month: u32,
    pub day: u32,
}

/// One reading of the local wall clock.
#[derive(Clone, Copy, Debug, PartialEq, Eq, Structural)]
pub struct LocalClock {
    pub date: Date,
    /// Seconds since local midnight, leap seconds not counted.
    pub second_of_day: u32,
}

/// The day of an occurrence, relative to the day of the clock reading.
#[derive(Clone, Copy, Debug, PartialEq, Eq, Structural)]
pub enum FireDay {
    Today,
    Tomorrow,
}

/// The next occurrence of a trigger: `hour:minute:00` local time, on the
/// day of the clock reading or on the day after it.
#[derive(Clone, Copy, Debug, PartialEq, Eq, Structural)]
pub struct FireTime {
    /// The day on which the clock was read.
    pub today: Date,
    pub day: FireDay,
    pub hour: u32,
    pub minute: u32,
}

/// The time of day that `text` writes as `HH:MM`.
///
/// The text is cut at every `:`. There must be at least two pieces; the first
/// two are the hour and the minute, each a decimal number as
/// [`decimal_u32`] reads it, the hour below 24 and the minute below 60.
/// Further pieces are ignored.
pub open spec fn clock_of(text: Seq<char>) -> Option<(u32, u32)> {
    let parts = split(text, ':');
    if parts.len() >= 2 {
        match (decimal_u32(parts[0]), decimal_u32(parts[1])) {
            (Some(hour), Some(minute)) => if hour < 24 && minute < 60 {
                Some((hour, minute))
            } else {
                None
            },
            _ => None,
        }
    } else {
        None
    }
}

/// Seconds from midnight at which the wall clock shows `hour:minute:00`.
pub open spec fn second_of_day(time: (u32, u32)) -> int {
    time.0 * 3600 + time.1 * 60
}

/// A trigger fires today while the clock has not yet reached its time, and
/// tomorrow from that second on.
pub open spec fn fire_day(time: (u32, u32), now: LocalClock) -> FireDay {
    if now.second_of_day < second_of_day(time) {
        FireDay::Today
    } else {
        FireDay::Tomorrow
    }
}

/// The code that a firing of the trigger `id` submits to the actor.
pub open spec fn timer_code(id: Seq<char>) -> Seq<char> {
    "(handle-timer \""@ + id + "\")"@
}

/// Reads a time of day written as `HH:MM`.
pub fn parse_clock(text: &str) -> (time: Option<(u32, u32)>)
    ensures
        time == clock_of(text@),
{
    let parts = split_at_char(text, ':');
    if parts.len() < 2 {
        return None;
    }
    match (parse_u32(parts[0].as_str()), parse_u32(parts[1].as_str())) {
        (Some(hour), Some(minute)) => if hour < 24 && minute < 60 {
            Some((hour, minute))
        } else {
            None
        },
        _ => None,
    }
}

/// `chrono::Local::now`, taken apart by the accessors of `Datelike` and
/// `Timelike`: the calendar day of the local wall clock and
/// `num_seconds_from_midnight`. Nothing is claimed of the reading.
#[verifier::external_body]
fn local_clock() -> (now: LocalClock) {
    let now = chrono::Local::now();
    LocalClock {
        date: Date { year: now.year(), month: now.month(), day: now.day() },
        second_of_day: now.num_seconds_from_midnight(),
    }
}

impl Clone for TimedEvent {
    fn clone(&self) -> (copy: Self)
        ensures
            copy == *self,
    {
        TimedEvent { time: self.time, id: self.id.clone() }
    }
}

impl TimedEvent {
    /// The hour is below 24 and the minute below 60.
    pub open spec fn wf(&self) -> bool {
        self.time.0 < 24 && self.time.1 < 60
    }

    /// A trigger for `time`, hour first, with the given id.
    pub fn new(time: (u32, u32), id: String) -> (ev: Self)
        requires
            time.0 < 24,
            time.1 < 60,
        ensures
            ev.time == time,
            ev.id == id,
            ev.wf(),
    {
        Self { time, id }
    }

    /// A trigger for the time that `time` writes as `HH:MM`.
    pub fn register(time: String, topic: String) -> (ev: Self)
        requires
            clock_of(time@) is Some,
        ensures
            Some(ev.time) == clock_of(time@),
            ev.id == topic,
            ev.wf(),
    {
        let at = parse_clock(time.as_str()).unwrap();
        Self::new(at, topic)
    }

    /// The next occurrence as seen from the clock reading `now`: today if
    /// the clock has not yet reached the trigger's time, else tomorrow.
    pub fn next_time_after(&self, now: LocalClock) -> (next: FireTime)
        requires
            self.wf(),
        ensures
            next == (FireTime {
                today: now.date,
                day: fire_day(self.time, now),
                hour: self.time.0,
                minute: self.time.1,
            }),
    {
        let due: u32 = self.time.0 * 3600 + self.time.1 * 60;
        let day = if now.second_of_day < due {
            FireDay::Today
        } else {
            FireDay::Tomorrow
        };
        FireTime { today: now.date, day, hour: self.time.0, minute: self.time.1 }
    }

    /// The next occurrence as seen from now. Whatever the clock shows, it
    /// is at the trigger's hour and minute.
    pub fn get_next_time(&self) -> (next: FireTime)
        requires
            self.wf(),
        ensures
            next.hour == self.time.0,
            next.minute == self.time.1,
    {
        self.next_time_after(local_clock())
    }

    /// The code that is submitted to the actor when this trigger fires.
    pub fn command(&self) -> (code: String)
        ensures
            code@ == timer_code(self.id@),
    {
        timer_command(self.id.as_str())
    }
}

/// The code that a firing of the trigger `id` submits to the actor: a call
/// of `handle-timer` on the id as a string literal.
pub fn timer_command(id: &str) -> (code: String)
    ensures
        code@ == timer_code(id@),
{
    let mut code: String = "(handle-timer \"".to_owned();
    code.append(id);
    code.append("\")");
    code
}

} // verus!
