use vstd::prelude::*;

use crate::pomodori::{Pomodori, Session, Settings, State, MAX_LENGTH_MINUTES, MINUTE_MILLIS};

verus! {

/// Milliseconds in one second.
pub const SECOND_MILLIS: u64 = 1000;

/// Milliseconds in one hour.
pub const HOUR_MILLIS: u64 = 3600000;

/// Whether the timer counts: idle, or running since the tick at `last_tick`
/// (a timestamp in milliseconds).
#[derive(Clone, Copy, Debug, PartialEq, Eq, Structural)]
pub enum RunState {
    Idle,
    Running { last_tick: u64 },
}

/// The abstract state of the timer: the session, the timestamp of the last
/// tick while running (`None` while idle), and the time spent in the active
/// phase, in milliseconds.
pub struct TimerState {
    pub session: Session,
    pub last_tick: Option<u64>,
    pub elapsed: int,
}

/// Milliseconds from `from` to `to`, or zero if `to` comes first.
pub open spec fn delta(from: u64, to: u64) -> int {
    if to >= from {
        to - from
    } else {
        0
    }
}

impl TimerState {
    /// The session is valid and the active phase is not yet overrun.
    pub open spec fn inv(self) -> bool {
        &&& self.session.inv()
        &&& 0 <= self.elapsed <= self.session.phase_millis()
    }

    /// Start or resume (from idle) or pause (while running) at time `now`.
    pub open spec fn toggled(self, now: u64) -> TimerState {
        match self.last_tick {
            None => match self.session.state {
                State::Ready => TimerState {
                    session: self.session.advanced(),
                    last_tick: Some(now),
                    elapsed: 0,
                },
                State::Finished => TimerState {
                    session: Session::start(self.session.settings).advanced(),
                    last_tick: Some(now),
                    elapsed: 0,
                },
                _ => TimerState { session: self.session, last_tick: Some(now), elapsed: self.elapsed },
            },
            Some(_) => TimerState { session: self.session, last_tick: None, elapsed: self.elapsed },
        }
    }

    /// A tick at time `now`: a finished session stops the timer; a running
    /// timer adds the time since the last tick and moves to the next phase
    /// once the active one is overrun.
    pub open spec fn ticked(self, now: u64) -> TimerState {
        if self.session.state is Finished {
            TimerState { session: self.session, last_tick: None, elapsed: 0 }
        } else {
            match self.last_tick {
                None => self,
                Some(t) => {
                    let e = self.elapsed + delta(t, now);
                    if e > self.session.phase_millis() {
                        TimerState { session: self.session.advanced(), last_tick: Some(now), elapsed: 0 }
                    } else {
                        TimerState { session: self.session, last_tick: Some(now), elapsed: e }
                    }
                },
            }
        }
    }

    /// Reset: nothing to do when `Ready`; otherwise a fresh session and an idle timer.
    pub open spec fn reset_commanded(self) -> TimerState {
        if self.session.state is Ready {
            self
        } else {
            TimerState { session: Session::start(self.session.settings), last_tick: None, elapsed: 0 }
        }
    }

    /// Skip: nothing to do when `Finished`; otherwise the next phase, from its
    /// start, with the timer left running or idle as it was.
    pub open spec fn skipped(self) -> TimerState {
        if self.session.state is Finished {
            self
        } else {
            TimerState { session: self.session.advanced(), last_tick: self.last_tick, elapsed: 0 }
        }
    }

    /// Time left in the active phase, in milliseconds.
    pub open spec fn remaining(self) -> int {
        if self.elapsed <= self.session.phase_millis() {
            self.session.phase_millis() - self.elapsed
        } else {
            0
        }
    }
}

/// The run-state controller: drives a session from host ticks and commands.
pub struct Pomodorable {
    pomodori: Pomodori,
    state: RunState,
    duration: u64,
}

impl View for Pomodorable {
    type V = TimerState;

    closed spec fn view(&self) -> TimerState {
        TimerState {
            session: self.pomodori@,
            last_tick: match self.state {
                RunState::Idle => None,
                RunState::Running { last_tick } => Some(last_tick),
            },
            elapsed: self.duration as int,
        }
    }
}

/// No phase lasts `u64::MAX` milliseconds.
proof fn lemma_phase_below_max(s: Session)
    requires
        s.settings.valid(),
    ensures
        s.phase_millis() < u64::MAX,
{
    assert(MAX_LENGTH_MINUTES * MINUTE_MILLIS < u64::MAX);
}

impl Pomodorable {
    /// The session being driven.
    pub closed spec fn session(&self) -> Pomodori {
        self.pomodori
    }

    pub open spec fn wf(&self) -> bool {
        &&& self.session().wf()
        &&& self.session()@ == self@.session
        &&& self@.inv()
    }

    /// The message stays unless the session moved.
    pub open spec fn keeps_quote(&self, before: &Pomodorable) -> bool {
        self@.session == before@.session ==> self.session().quote() == before.session().quote()
    }

    /// An idle timer over a fresh session with the default settings.
    pub fn new() -> (r: Pomodorable)
        ensures
            r.wf(),
            r@ == (TimerState { session: Session::start(Settings::defaults()), last_tick: None, elapsed: 0 }),
    {
        Pomodorable::with_settings(Settings::default())
    }

    /// An idle timer over a fresh session with the given settings.
    pub fn with_settings(settings: Settings) -> (r: Pomodorable)
        requires
            settings.valid(),
        ensures
            r.wf(),
            r@ == (TimerState { session: Session::start(settings), last_tick: None, elapsed: 0 }),
    {
        Pomodorable { pomodori: Pomodori::with_settings(settings), state: RunState::Idle, duration: 0 }
    }

    /// The session being driven.
    pub fn pomodori(&self) -> (r: &Pomodori)
        ensures
            *r == self.session(),
            r@ == self@.session,
    {
        &self.pomodori
    }

    pub fn get_run_state(&self) -> (r: RunState)
        ensures
            r is Idle <==> self@.last_tick is None,
            r matches RunState::Running { last_tick } ==> self@.last_tick == Some(last_tick),
    {
        self.state
    }

    /// Whether the timer counts.
    pub fn is_running(&self) -> (r: bool)
        ensures
            r == self@.last_tick is Some,
    {
        match self.state {
            RunState::Idle => false,
            RunState::Running { .. } => true,
        }
    }

    /// Time spent in the active phase, in milliseconds.
    pub fn elapsed(&self) -> (r: u64)
        ensures
            r as int == self@.elapsed,
    {
        self.duration
    }

    /// Time left in the active phase, in milliseconds.
    pub fn remaining(&self) -> (r: u64)
        requires
            self.wf(),
        ensures
            r as int == self@.remaining(),
    {
        self.pomodori.get_current_interval().saturating_sub(self.duration)
    }

    /// The time left as shown on a clock face: minutes within the hour and
    /// seconds within the minute.
    pub fn countdown(&self) -> (r: (u64, u64))
        requires
            self.wf(),
        ensures
            r.0 as int == (self@.remaining() % HOUR_MILLIS as int) / MINUTE_MILLIS as int,
            r.1 as int == (self@.remaining() % MINUTE_MILLIS as int) / SECOND_MILLIS as int,
    {
        let left = self.remaining();
        ((left % HOUR_MILLIS) / MINUTE_MILLIS, (left % MINUTE_MILLIS) / SECOND_MILLIS)
    }

    /// Start or resume (from idle) or pause (while running) at time `now`.
    pub fn toggle(&mut self, now: u64)
        requires
            old(self).wf(),
        ensures
            final(self).wf(),
            final(self)@ == old(self)@.toggled(now),
            final(self).keeps_quote(old(self)),
    {
        match self.state {
            RunState::Idle => {
                match self.pomodori.get_state() {
                    State::Ready => {
                        self.pomodori.next();
                        self.duration = 0;
                    },
                    State::Finished => {
                        self.pomodori.reset();
                        self.pomodori.next();
                        self.duration = 0;
                    },
                    _ => {},
                }
                self.state = RunState::Running { last_tick: now };
            },
            RunState::Running { .. } => {
                self.state = RunState::Idle;
            },
        }
    }

    /// A tick from the host at time `now`.
    pub fn tick(&mut self, now: u64)
        requires
            old(self).wf(),
        ensures
            final(self).wf(),
            final(self)@ == old(self)@.ticked(now),
            final(self).keeps_quote(old(self)),
    {
        if let State::Finished = self.pomodori.get_state() {
            // the session is over: stop the timer
            self.state = RunState::Idle;
            self.duration = 0;
        } else if let RunState::Running { last_tick } = self.state {
            self.duration = self.duration.saturating_add(now.saturating_sub(last_tick));
            self.state = RunState::Running { last_tick: now };
            let length = self.pomodori.get_current_interval();
            proof {
                lemma_phase_below_max(self.pomodori@);
            }
            if self.duration > length {
                self.pomodori.next();
                self.duration = 0;
            }
        }
    }

    /// Reset the session, unless it has not started.
    pub fn reset_command(&mut self)
        requires
            old(self).wf(),
        ensures
            final(self).wf(),
            final(self)@ == old(self)@.reset_commanded(),
            final(self).keeps_quote(old(self)),
    {
        match self.pomodori.get_state() {
            State::Ready => {},
            _ => {
                self.pomodori.reset();
                self.state = RunState::Idle;
                self.duration = 0;
            },
        }
    }

    /// Skip to the next phase, unless the session has finished.
    pub fn skip_command(&mut self)
        requires
            old(self).wf(),
        ensures
            final(self).wf(),
            final(self)@ == old(self)@.skipped(),
            final(self).keeps_quote(old(self)),
    {
        match self.pomodori.get_state() {
            State::Finished => {},
            _ => {
                self.pomodori.next();
                self.duration = 0;
            },
        }
    }
}


/// Ticks at `t1` and then `t2` leave the timer as a single tick at `t2` would,
/// when it runs since `t0 <= t1 <= t2` and the time from `t0` to `t2` does not
/// overrun the active phase.
pub proof fn lemma_ticks_compose(s: TimerState, t0: u64, t1: u64, t2: u64)
    requires
        s.inv(),
        s.last_tick == Some(t0),
        t0 <= t1 <= t2,
        s.elapsed + (t2 - t0) <= s.session.phase_millis(),
    ensures
        s.ticked(t1).ticked(t2) == s.ticked(t2),
        s.ticked(t1).ticked(t2).elapsed == s.elapsed + (t2 - t0),
{
}

} // verus!
