use vstd::prelude::*;

use crate::pomodori::MINUTE_MILLIS;

verus! {

/// Every fourth completed interval is followed by a long break.
pub const LONG_BREAK_INTERVAL: i32 = 4;

/// The kind of interval a fixed cycle is in.
#[derive(Default, Clone, Copy, Debug, PartialEq, Eq, Structural)]
pub enum PomodoroType {
    #[default]
    Working,
    Break,
    LongBreak,
}

/// A fixed cycle of 25-minute work intervals with 5-minute breaks and a
/// 30-minute long break after every fourth, without a session target.
pub struct PomodoriManager {
    interval_count: i32,
    current: PomodoroType,
}

impl View for PomodoriManager {
    type V = (PomodoroType, int);

    closed spec fn view(&self) -> (PomodoroType, int) {
        (self.current, self.interval_count as int)
    }
}

/// One step of the fixed cycle.
pub open spec fn cycle_next(s: (PomodoroType, int)) -> (PomodoroType, int) {
    match s.0 {
        PomodoroType::Working => if (s.1 + 1) % LONG_BREAK_INTERVAL as int == 0 {
            (PomodoroType::LongBreak, s.1)
        } else {
            (PomodoroType::Break, s.1)
        },
        _ => (PomodoroType::Working, s.1 + 1),
    }
}

/// Length of an interval of the fixed cycle, in milliseconds.
pub open spec fn cycle_length(t: PomodoroType) -> int {
    match t {
        PomodoroType::Working => 25 * MINUTE_MILLIS,
        PomodoroType::Break => 5 * MINUTE_MILLIS,
        PomodoroType::LongBreak => 30 * MINUTE_MILLIS,
    }
}

impl PomodoriManager {
    /// A cycle at its first work interval.
    pub fn new() -> (r: PomodoriManager)
        ensures
            r@ == (PomodoroType::Working, 0int),
    {
        PomodoriManager { interval_count: 0, current: PomodoroType::Working }
    }

    /// Back to the first work interval.
    pub fn reset(&mut self)
        ensures
            final(self)@ == (PomodoroType::Working, 0int),
    {
        self.interval_count = 0;
        self.current = PomodoroType::Working;
    }

    pub fn get_interval_count(&self) -> (r: i32)
        ensures
            r as int == self@.1,
    {
        self.interval_count
    }

    /// Length of the current interval, in milliseconds.
    pub fn get_current_interval(&self) -> (r: u64)
        ensures
            r as int == cycle_length(self@.0),
    {
        match self.current {
            PomodoroType::Working => 25 * MINUTE_MILLIS,
            PomodoroType::Break => 5 * MINUTE_MILLIS,
            PomodoroType::LongBreak => 30 * MINUTE_MILLIS,
        }
    }

    /// Is the current interval a break?
    pub fn is_break(&self) -> (r: bool)
        ensures
            r == !(self@.0 is Working),
    {
        match self.current {
            PomodoroType::Working => false,
            PomodoroType::Break => true,
            PomodoroType::LongBreak => true,
        }
    }

    /// Moves on to the next interval; an interval counts once its break is over.
    pub fn next(&mut self)
        requires
            old(self)@.1 < i32::MAX,
        ensures
            final(self)@ == cycle_next(old(self)@),
    {
        self.current = match self.current {
            PomodoroType::Working => {
                if (self.interval_count + 1) % LONG_BREAK_INTERVAL == 0 {
                    PomodoroType::LongBreak
                } else {
                    PomodoroType::Break
                }
            },
            _ => {
                self.interval_count = self.interval_count + 1;
                PomodoroType::Working
            },
        };
    }
}

} // verus!
