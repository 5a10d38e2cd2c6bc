//! The game clock of the Chronos time plugin.
//!
//! The clock keeps an hour and a minute of the game day. In virtual time it
//! advances one minute per tick; in real time it is set from the game seconds
//! elapsed since the clock started.

use vstd::prelude::*;
use crate::text::text;

verus! {

/// Minutes in an hour of game time.
pub const MINUTES_PER_HOUR: i32 = 60;

/// Hours in a game day.
pub const HOURS_PER_DAY: i32 = 24;

/// The hour a new clock starts at.
pub const START_HOUR: i32 = 6;

/// Rust's `%` on integers: the remainder of division rounded toward zero.
pub open spec fn trunc_rem(a: int, b: int) -> int {
    if a >= 0 {
        a % b
    } else {
        -((-a) % b)
    }
}

/// Rust's `/` on integers: division rounded toward zero.
pub open spec fn trunc_div(a: int, b: int) -> int {
    if a >= 0 {
        a / b
    } else {
        -((-a) / b)
    }
}

/// An hour and minute that name a moment of the game day.
pub open spec fn valid_time(hour: int, minute: int) -> bool {
    0 <= hour < HOURS_PER_DAY && 0 <= minute < MINUTES_PER_HOUR
}

/// The minutes since midnight at `hour:minute`.
pub open spec fn minute_of_day(hour: int, minute: int) -> int {
    hour * MINUTES_PER_HOUR + minute
}

/// Hours of daylight: from 5 through 20.
pub open spec fn daytime_hour(hour: int) -> bool {
    5 <= hour <= 20
}

/// The part of the day that an hour belongs to.
pub open spec fn time_of_day_spec(hour: int) -> Seq<char> {
    if 5 <= hour <= 8 {
        "Dawn"@
    } else if 9 <= hour <= 16 {
        "Day"@
    } else if 17 <= hour <= 20 {
        "Dusk"@
    } else {
        "Night"@
    }
}

/// The clock after `set_time(hour, minute)`.
pub open spec fn clock_after_set(t: TimeState, hour: i32, minute: i32) -> TimeState {
    TimeState { current_hour: hour, current_minute: minute, ..t }
}

/// What `request_time` reports.
pub open spec fn requested_time(t: TimeState) -> (i32, i32) {
    (t.current_hour, t.current_minute)
}

/// Whether a tick of the clock stays within `i32`.
pub open spec fn can_tick(t: TimeState) -> bool {
    &&& t.current_minute < i32::MAX
    &&& t.current_minute + 1 >= MINUTES_PER_HOUR ==> t.current_hour < i32::MAX
}

/// The clock after `advance_minute`.
pub open spec fn clock_after_tick(t: TimeState) -> TimeState {
    if t.current_minute + 1 >= MINUTES_PER_HOUR {
        TimeState {
            current_hour: trunc_rem(t.current_hour + 1, HOURS_PER_DAY as int) as i32,
            current_minute: 0,
            ..t
        }
    } else {
        TimeState { current_minute: (t.current_minute + 1) as i32, ..t }
    }
}

/// The clock after `sync_to_elapsed(elapsed)`.
pub open spec fn clock_after_sync(t: TimeState, elapsed: i32) -> TimeState {
    let minutes = trunc_div(elapsed as int, 60);
    TimeState {
        current_hour: trunc_rem(trunc_div(minutes, MINUTES_PER_HOUR as int), HOURS_PER_DAY as int) as i32,
        current_minute: trunc_rem(minutes, MINUTES_PER_HOUR as int) as i32,
        ..t
    }
}

/// One pass of the clock server's loop: in real time, the clock is set
/// from the game seconds elapsed since it started; in virtual time, it
/// ticks one minute; paused, it stays.
#[derive(Debug, Clone, Copy, PartialEq, Eq, Structural)]
pub enum ClockStep {
    Sync(i32),
    Tick,
    Pause,
}

/// The clock after one pass of the clock server's loop.
pub open spec fn clock_after_step(t: TimeState, step: ClockStep) -> TimeState {
    match step {
        ClockStep::Sync(elapsed) => clock_after_sync(t, elapsed),
        ClockStep::Tick => clock_after_tick(t),
        ClockStep::Pause => t,
    }
}

/// The state of the game clock.
#[derive(Debug, Clone, Copy)]
pub struct TimeState {
    pub current_hour: i32,
    pub current_minute: i32,
    /// When the clock started, in seconds since the Unix epoch.
    pub start_time: u64,
}

impl TimeState {
    /// A clock started at `start_time` (seconds since the Unix epoch),
    /// showing 6:00.
    pub fn new(start_time: u64) -> (r: TimeState)
        ensures
            r.current_hour == START_HOUR,
            r.current_minute == 0,
            r.start_time == start_time,
    {
        TimeState { current_hour: START_HOUR, current_minute: 0, start_time }
    }

    /// The current hour and minute.
    pub fn request_time(&self) -> (r: (i32, i32))
        ensures
            r == requested_time(*self),
    {
        (self.current_hour, self.current_minute)
    }

    /// Sets the clock to `hour:minute`, as given.
    pub fn set_time(&mut self, hour: i32, minute: i32)
        ensures
            final(self).current_hour == hour,
            final(self).current_minute == minute,
            final(self).start_time == old(self).start_time,
            *final(self) == clock_after_set(*old(self), hour, minute),
    {
        self.current_hour = hour;
        self.current_minute = minute;
    }

    /// One tick of virtual time: the minute advances; on reaching 60 it
    /// wraps to 0 and the hour advances, wrapping at 24.
    pub fn advance_minute(&mut self)
        requires
            old(self).current_minute < i32::MAX,
            old(self).current_minute + 1 >= MINUTES_PER_HOUR ==> old(self).current_hour < i32::MAX,
        ensures
            final(self).start_time == old(self).start_time,
            old(self).current_minute + 1 >= MINUTES_PER_HOUR ==> {
                &&& final(self).current_minute == 0
                &&& final(self).current_hour == trunc_rem(old(self).current_hour + 1, HOURS_PER_DAY as int)
            },
            old(self).current_minute + 1 < MINUTES_PER_HOUR ==> {
                &&& final(self).current_minute == old(self).current_minute + 1
                &&& final(self).current_hour == old(self).current_hour
            },
            *final(self) == clock_after_tick(*old(self)),
    {
        self.current_minute = self.current_minute + 1;
        if self.current_minute >= MINUTES_PER_HOUR {
            self.current_minute = 0;
            self.current_hour = (self.current_hour + 1) % HOURS_PER_DAY;
        }
    }

    /// The real seconds since the clock started, at `now` (seconds since
    /// the Unix epoch).
    pub fn elapsed_real_seconds(&self, now: u64) -> (r: u64)
        requires
            now >= self.start_time,
        ensures
            r == now - self.start_time,
    {
        now - self.start_time
    }

    /// Sets the clock from the game seconds elapsed since it started: the
    /// whole minutes elapsed, taken modulo the hour and the day.
    pub fn sync_to_elapsed(&mut self, elapsed_game_seconds: i32)
        ensures
            final(self).start_time == old(self).start_time,
            final(self).current_minute == trunc_rem(
                trunc_div(elapsed_game_seconds as int, 60),
                MINUTES_PER_HOUR as int,
            ),
            final(self).current_hour == trunc_rem(
                trunc_div(trunc_div(elapsed_game_seconds as int, 60), MINUTES_PER_HOUR as int),
                HOURS_PER_DAY as int,
            ),
            *final(self) == clock_after_sync(*old(self), elapsed_game_seconds),
    {
        let total_minutes = elapsed_game_seconds / 60;
        self.current_minute = total_minutes % MINUTES_PER_HOUR;
        self.current_hour = (total_minutes / MINUTES_PER_HOUR) % HOURS_PER_DAY;
    }

    /// One pass of the clock server's loop.
    pub fn step(&mut self, step: ClockStep)
        requires
            step == ClockStep::Tick ==> can_tick(*old(self)),
        ensures
            *final(self) == clock_after_step(*old(self), step),
    {
        match step {
            ClockStep::Sync(elapsed) => self.sync_to_elapsed(elapsed),
            ClockStep::Tick => self.advance_minute(),
            ClockStep::Pause => {},
        }
    }

    /// Whether the current hour is one of daylight (5 through 20).
    pub fn is_daytime(&self) -> (r: bool)
        ensures
            r == daytime_hour(self.current_hour as int),
    {
        is_daytime_hour(self.current_hour)
    }

    /// The part of the day of the current hour: "Dawn" (5 to 8), "Day"
    /// (9 to 16), "Dusk" (17 to 20) or "Night".
    pub fn get_time_of_day(&self) -> (r: String)
        ensures
            r@ == time_of_day_spec(self.current_hour as int),
    {
        time_of_day(self.current_hour)
    }
}

/// Whether `hour` is one of daylight (5 through 20).
pub fn is_daytime_hour(hour: i32) -> (r: bool)
    ensures
        r == daytime_hour(hour as int),
{
    if 5 <= hour && hour <= 8 {
        true
    } else if 9 <= hour && hour <= 16 {
        true
    } else if 17 <= hour && hour <= 20 {
        true
    } else {
        false
    }
}

/// The part of the day that `hour` belongs to.
pub fn time_of_day(hour: i32) -> (r: String)
    ensures
        r@ == time_of_day_spec(hour as int),
{
    if 5 <= hour && hour <= 8 {
        text("Dawn")
    } else if 9 <= hour && hour <= 16 {
        text("Day")
    } else if 17 <= hour && hour <= 20 {
        text("Dusk")
    } else {
        text("Night")
    }
}

} // verus!
