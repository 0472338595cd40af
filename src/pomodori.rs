use rand::seq::IndexedRandom;
use vstd::prelude::*;

verus! {

/// Milliseconds in one minute; phase lengths are configured in minutes.
pub const MINUTE_MILLIS: u64 = 60000;

/// The largest phase length, in minutes, whose length in milliseconds fits in a `u64`.
pub const MAX_LENGTH_MINUTES: u64 = 307445734561825;

/// The phase of the work/break cycle that is active.
#[derive(Default, Clone, Copy, Debug, PartialEq, Eq, Structural)]
pub enum State {
    #[default]
    Ready,
    Focus,
    Break,
    LongBreak,
    Finished,
}

/// Configuration of one session: phase lengths in minutes, how many focus
/// intervals lie between long breaks, and how many make up the session.
#[derive(Clone, Copy, Debug, PartialEq, Eq, Structural)]
pub struct Settings {
    pub focus_length: u64,
    pub short_break_length: u64,
    pub long_break_length: u64,
    pub long_break_interval: i32,
    pub interval_target: i32,
}

impl Settings {
    /// Settings a session can run with: every length fits in milliseconds,
    /// and the long-break interval and the target are at least one.
    pub open spec fn valid(self) -> bool {
        &&& self.focus_length <= MAX_LENGTH_MINUTES
        &&& self.short_break_length <= MAX_LENGTH_MINUTES
        &&& self.long_break_length <= MAX_LENGTH_MINUTES
        &&& self.long_break_interval >= 1
        &&& self.interval_target >= 1
    }
}

impl Settings {
    /// Focus 25 minutes, short breaks 5, long breaks 30, a long break after
    /// every fourth interval, ten intervals in a session.
    pub open spec fn defaults() -> Settings {
        Settings {
            focus_length: 25,
            short_break_length: 5,
            long_break_length: 30,
            long_break_interval: 4,
            interval_target: 10,
        }
    }
}

impl Default for Settings {
    fn default() -> (r: Settings)
        ensures
            r == Settings::defaults(),
            r.valid(),
    {
        Settings {
            focus_length: 25,
            short_break_length: 5,
            long_break_length: 30,
            long_break_interval: 4,
            interval_target: 10,
        }
    }
}

/// The abstract state of a session: its phase, the number of completed focus
/// intervals and its settings.
pub struct Session {
    pub state: State,
    pub interval_count: int,
    pub settings: Settings,
}

/// The break that follows the `k`-th completed focus interval when every
/// `n`-th one earns a long break.
pub open spec fn break_after(k: int, n: int) -> State {
    if k % n == 0 {
        State::LongBreak
    } else {
        State::Break
    }
}

impl Session {
    /// A fresh session: `Ready`, with no interval completed.
    pub open spec fn start(settings: Settings) -> Session {
        Session { state: State::Ready, interval_count: 0, settings }
    }

    /// Valid settings, and at most as many completed intervals as the target;
    /// in a break fewer, since the break's end counts one more.
    pub open spec fn inv(self) -> bool {
        &&& self.settings.valid()
        &&& 0 <= self.interval_count <= self.settings.interval_target
        &&& (self.state is Break || self.state is LongBreak) ==> self.interval_count
            < self.settings.interval_target
    }

    pub open spec fn with_state(self, state: State) -> Session {
        Session { state, interval_count: self.interval_count, settings: self.settings }
    }

    pub open spec fn with_count(self, interval_count: int) -> Session {
        Session { state: self.state, interval_count, settings: self.settings }
    }

    /// One step of the cycle.
    pub open spec fn advanced(self) -> Session {
        match self.state {
            State::Ready => self.with_state(State::Focus),
            State::Finished => self,
            State::Focus => if self.interval_count + 1 >= self.settings.interval_target {
                self.with_state(State::Finished)
            } else {
                self.with_state(
                    break_after(self.interval_count + 1, self.settings.long_break_interval as int),
                )
            },
            State::Break | State::LongBreak => Session {
                state: State::Focus,
                interval_count: self.interval_count + 1,
                settings: self.settings,
            },
        }
    }

    /// Length of the active phase in milliseconds; `Ready` shows a full focus
    /// phase and `Finished` lasts nothing.
    pub open spec fn phase_millis(self) -> int {
        match self.state {
            State::Ready | State::Focus => self.settings.focus_length * MINUTE_MILLIS,
            State::Break => self.settings.short_break_length * MINUTE_MILLIS,
            State::LongBreak => self.settings.long_break_length * MINUTE_MILLIS,
            State::Finished => 0,
        }
    }
}

/// The messages that may greet each phase.
pub open spec fn quote_bank(state: State) -> Seq<Seq<char>> {
    match state {
        State::Ready => seq![
            "Welcome to Pomodorable"@,
            "Let's work together!"@,
            "Hi friend"@,
            "Let's get some work done!"@,
        ],
        State::Focus => seq![
            "Work work"@,
            "Focus time"@,
            "Time to get stuff done!"@,
            "Time to be productive"@,
        ],
        State::Break => seq![
            "You deserve a short break"@,
            "Ahh break time"@,
            "Take five"@,
            "Remember to hydrate"@,
            "Remember to stretch"@,
        ],
        State::LongBreak => seq![
            "Break time!"@,
            "Step away from the computer for a bit"@,
            "You deserve some rest"@,
            "Go and get a snack"@,
        ],
        State::Finished => seq![
            "All done, good job!"@,
            "Finished! Nice job!"@,
            "DONE! LOOK AT YOU GO!"@,
            "Mission complete!"@,
        ],
    }
}

/// The messages of `state`'s bank, in order.
fn quote_bank_of(state: State) -> (r: Vec<String>)
    ensures
        r@.len() == quote_bank(state).len(),
        forall|i: int| 0 <= i < r@.len() ==> #[trigger] r@[i]@ == quote_bank(state)[i],
{
    match state {
        State::Ready => vec![
            String::from_str("Welcome to Pomodorable"),
            String::from_str("Let's work together!"),
            String::from_str("Hi friend"),
            String::from_str("Let's get some work done!"),
        ],
        State::Focus => vec![
            String::from_str("Work work"),
            String::from_str("Focus time"),
            String::from_str("Time to get stuff done!"),
            String::from_str("Time to be productive"),
        ],
        State::Break => vec![
            String::from_str("You deserve a short break"),
            String::from_str("Ahh break time"),
            String::from_str("Take five"),
            String::from_str("Remember to hydrate"),
            String::from_str("Remember to stretch"),
        ],
        State::LongBreak => vec![
            String::from_str("Break time!"),
            String::from_str("Step away from the computer for a bit"),
            String::from_str("You deserve some rest"),
            String::from_str("Go and get a snack"),
        ],
        State::Finished => vec![
            String::from_str("All done, good job!"),
            String::from_str("Finished! Nice job!"),
            String::from_str("DONE! LOOK AT YOU GO!"),
            String::from_str("Mission complete!"),
        ],
    }
}

/// Relies on rand's `IndexedRandom::choose` with the thread-local generator
/// `rand::rng()`: `None` on an empty slice, otherwise one of its elements,
/// picked at random.
#[verifier::external_body]
fn choose_quote(bank: &Vec<String>) -> (r: Option<String>)
    ensures
        r is None <==> bank@.len() == 0,
        r matches Some(q) ==> exists|i: int| 0 <= i < bank@.len() && bank@[i] == q,
{
    bank.choose(&mut rand::rng()).cloned()
}

/// How many messages `state`'s bank holds.
pub fn quote_count(state: State) -> (r: usize)
    ensures
        r == quote_bank(state).len(),
{
    quote_bank_of(state).len()
}

/// The `index`-th message of `state`'s bank.
pub fn quote_at(state: State, index: usize) -> (r: String)
    requires
        index < quote_bank(state).len(),
    ensures
        r@ == quote_bank(state)[index as int],
{
    let bank = quote_bank_of(state);
    bank[index].clone()
}

/// A message from `state`'s bank, picked at random.
fn pick_quote(state: State) -> (r: String)
    ensures
        quote_bank(state).contains(r@),
{
    let bank = quote_bank_of(state);
    match choose_quote(&bank) {
        Some(q) => {
            assert(quote_bank(state)[choose|i: int| 0 <= i < bank@.len() && bank@[i] == q] == q@);
            q
        },
        None => String::from_str("Uh oh you should not be seeing this O:"),
    }
}

/// A running session: the interval state machine of the Pomodoro cycle.
pub struct Pomodori {
    interval_count: i32,
    state: State,
    settings: Settings,
    current_quote: String,
}

impl View for Pomodori {
    type V = Session;

    closed spec fn view(&self) -> Session {
        Session {
            state: self.state,
            interval_count: self.interval_count as int,
            settings: self.settings,
        }
    }
}

impl Pomodori {
    /// The message shown for the active phase.
    pub closed spec fn quote(&self) -> Seq<char> {
        self.current_quote@
    }

    /// The session invariant holds and the message belongs to the active phase.
    pub open spec fn wf(&self) -> bool {
        &&& self@.inv()
        &&& quote_bank(self@.state).contains(self.quote())
    }

    /// A session with the default settings.
    pub fn new() -> (r: Pomodori)
        ensures
            r.wf(),
            r@ == Session::start(Settings::defaults()),
    {
        Pomodori::with_settings(Settings::default())
    }

    /// A session with the given settings.
    pub fn with_settings(settings: Settings) -> (r: Pomodori)
        requires
            settings.valid(),
        ensures
            r.wf(),
            r@ == Session::start(settings),
    {
        Pomodori {
            interval_count: 0,
            state: State::Ready,
            settings,
            current_quote: pick_quote(State::Ready),
        }
    }

    pub fn get_state(&self) -> (r: State)
        ensures
            r == self@.state,
    {
        self.state
    }

    pub fn get_interval_count(&self) -> (r: i32)
        ensures
            r as int == self@.interval_count,
    {
        self.interval_count
    }

    pub fn get_interval_target(&self) -> (r: i32)
        ensures
            r == self@.settings.interval_target,
    {
        self.settings.interval_target
    }

    pub fn get_quote(&self) -> (r: String)
        ensures
            r@ == self.quote(),
    {
        self.current_quote.clone()
    }

    /// Length of the active phase, in milliseconds.
    pub fn get_current_interval(&self) -> (r: u64)
        requires
            self@.settings.valid(),
        ensures
            r as int == self@.phase_millis(),
    {
        match self.state {
            State::Focus => self.settings.focus_length * MINUTE_MILLIS,
            State::Break => self.settings.short_break_length * MINUTE_MILLIS,
            State::LongBreak => self.settings.long_break_length * MINUTE_MILLIS,
            State::Finished => 0,
            State::Ready => self.settings.focus_length * MINUTE_MILLIS,
        }
    }

    /// Starts the session over: `Ready`, with no interval completed.
    pub fn reset(&mut self)
        requires
            old(self).wf(),
        ensures
            final(self).wf(),
            final(self)@ == Session::start(old(self)@.settings),
    {
        self.interval_count = 0;
        self.set_state(State::Ready);
    }

    /// Moves on to the next phase of the cycle.
    pub fn next(&mut self)
        requires
            old(self).wf(),
        ensures
            final(self).wf(),
            final(self)@ == old(self)@.advanced(),
            old(self)@.state is Finished ==> final(self).quote() == old(self).quote(),
    {
        let new_state = match self.state {
            State::Ready => State::Focus,
            // a finished session stays as it is
            State::Finished => {
                return;
            },
            State::Focus => {
                if self.interval_count >= self.settings.interval_target - 1 {
                    State::Finished
                } else if (self.interval_count + 1) % self.settings.long_break_interval == 0 {
                    State::LongBreak
                } else {
                    State::Break
                }
            },
            State::Break | State::LongBreak => {
                // an interval counts once its break is over
                self.interval_count = self.interval_count + 1;
                State::Focus
            },
        };
        self.set_state(new_state);
    }

    /// Enters `state` and picks a message for it. A break can only be entered
    /// short of the target, as its end counts one more interval.
    pub fn set_state(&mut self, state: State)
        requires
            old(self)@.with_state(state).inv(),
        ensures
            final(self).wf(),
            final(self)@ == old(self)@.with_state(state),
    {
        self.state = state;
        self.current_quote = pick_quote(state);
    }
}

/// The session after `n` further steps of the cycle.
pub open spec fn advance_n(s: Session, n: nat) -> Session
    decreases n,
{
    if n == 0 {
        s
    } else {
        advance_n(s, (n - 1) as nat).advanced()
    }
}

/// How many of the first `n` sessions of the trace from `s` are in `Focus`.
pub open spec fn focus_count(s: Session, n: nat) -> nat
    decreases n,
{
    if n == 0 {
        0
    } else {
        focus_count(s, (n - 1) as nat) + if advance_n(s, (n - 1) as nat).state is Focus {
            1nat
        } else {
            0nat
        }
    }
}

/// The trace of a fresh session up to its end: focus interval `k` (from
/// zero) is entered at step `2k + 1`, the break after it at step `2k + 2`,
/// and the session ends at step `2 * target`.
proof fn lemma_trace(settings: Settings, k: int)
    requires
        settings.valid(),
        0 <= k < settings.interval_target,
    ensures
        advance_n(Session::start(settings), (2 * k + 1) as nat) == Session::start(
            settings,
        ).with_state(State::Focus).with_count(k),
        focus_count(Session::start(settings), (2 * k) as nat) == k,
        k + 1 < settings.interval_target ==> advance_n(
            Session::start(settings),
            (2 * k + 2) as nat,
        ) == Session::start(settings).with_state(
            break_after(k + 1, settings.long_break_interval as int),
        ).with_count(k),
        k + 1 == settings.interval_target ==> advance_n(
            Session::start(settings),
            (2 * k + 2) as nat,
        ) == Session::start(settings).with_state(State::Finished).with_count(k),
    decreases k,
{
    let s0 = Session::start(settings);
    if k > 0 {
        lemma_trace(settings, k - 1);
        assert(advance_n(s0, (2 * k) as nat) == advance_n(s0, (2 * k - 1) as nat).advanced());
        assert(focus_count(s0, (2 * k) as nat) == focus_count(s0, (2 * k - 1) as nat) + 1);
        assert(focus_count(s0, (2 * k - 1) as nat) == focus_count(s0, (2 * k - 2) as nat));
        assert(advance_n(s0, (2 * k + 1) as nat) == advance_n(s0, (2 * k) as nat).advanced());
    } else {
        assert(advance_n(s0, 1) == advance_n(s0, 0).advanced());
    }
    assert(focus_count(s0, (2 * k + 1) as nat) == focus_count(s0, (2 * k) as nat));
    assert(advance_n(s0, (2 * k + 2) as nat) == advance_n(s0, (2 * k + 1) as nat).advanced());
}

/// Once a session has finished, further steps leave it as it is.
proof fn lemma_finished_absorbs(s: Session, n: nat)
    requires
        s.state is Finished,
    ensures
        advance_n(s, n) == s,
    decreases n,
{
    if n > 0 {
        lemma_finished_absorbs(s, (n - 1) as nat);
    }
}

/// `advance_n` composes: `m` steps after `n` steps are `n + m` steps.
proof fn lemma_advance_add(s: Session, n: nat, m: nat)
    ensures
        advance_n(advance_n(s, n), m) == advance_n(s, n + m),
    decreases m,
{
    if m > 0 {
        lemma_advance_add(s, n, (m - 1) as nat);
    }
}

/// A fresh session finishes after exactly `2 * interval_target` steps, having
/// passed through `Focus` exactly `interval_target` times, and stays finished:
/// no later step changes it or enters `Focus` again.
pub proof fn lemma_session_finishes(settings: Settings)
    requires
        settings.valid(),
    ensures
        forall|n: nat|
            n < 2 * settings.interval_target ==> !(#[trigger] advance_n(
                Session::start(settings),
                n,
            ).state is Finished),
        forall|n: nat|
            n >= 2 * settings.interval_target ==> {
                &&& (#[trigger] advance_n(Session::start(settings), n)).state is Finished
                &&& advance_n(Session::start(settings), n).advanced() == advance_n(
                    Session::start(settings),
                    n,
                )
                &&& advance_n(Session::start(settings), n) == advance_n(
                    Session::start(settings),
                    (2 * settings.interval_target) as nat,
                )
                &&& focus_count(Session::start(settings), n) == settings.interval_target
            },
{
    let s0 = Session::start(settings);
    let t = settings.interval_target as int;
    lemma_trace(settings, t - 1);
    let end = advance_n(s0, (2 * t) as nat);
    assert forall|n: nat| n < 2 * t implies !(#[trigger] advance_n(s0, n).state is Finished) by {
        if n > 0 {
            let k = (n - 1) / 2;
            lemma_trace(settings, k);
        }
    }
    assert forall|n: nat| n >= 2 * t implies {
        &&& (#[trigger] advance_n(s0, n)).state is Finished
        &&& advance_n(s0, n) == end
        &&& focus_count(s0, n) == t
    } by {
        lemma_advance_add(s0, (2 * t) as nat, (n - 2 * t) as nat);
        lemma_finished_absorbs(end, (n - 2 * t) as nat);
        lemma_focus_count_after_end(settings, n);
    }
}

/// From its end on, the trace of a fresh session has entered `Focus` exactly
/// `interval_target` times.
proof fn lemma_focus_count_after_end(settings: Settings, n: nat)
    requires
        settings.valid(),
        n >= 2 * settings.interval_target,
    ensures
        focus_count(Session::start(settings), n) == settings.interval_target,
    decreases n,
{
    let s0 = Session::start(settings);
    let t = settings.interval_target as int;
    lemma_trace(settings, t - 1);
    if n > 2 * t {
        lemma_focus_count_after_end(settings, (n - 1) as nat);
        lemma_advance_add(s0, (2 * t) as nat, (n - 1 - 2 * t) as nat);
        lemma_finished_absorbs(advance_n(s0, (2 * t) as nat), (n - 1 - 2 * t) as nat);
    } else {
        assert(focus_count(s0, (2 * t) as nat) == focus_count(s0, (2 * t - 1) as nat) + 1);
        assert(focus_count(s0, (2 * t - 1) as nat) == focus_count(s0, (2 * t - 2) as nat));
    }
}

/// No sequence of steps from a valid session counts more completed
/// intervals than the target.
pub proof fn lemma_count_within_target(s: Session, n: nat)
    requires
        s.inv(),
    ensures
        advance_n(s, n).inv(),
        0 <= advance_n(s, n).interval_count <= s.settings.interval_target,
        advance_n(s, n).settings == s.settings,
    decreases n,
{
    if n > 0 {
        lemma_count_within_target(s, (n - 1) as nat);
    }
}

/// A fresh session ends with one interval fewer counted than the target:
/// the last focus interval ends the session instead of leading to a break.
pub proof fn lemma_finished_count(settings: Settings)
    requires
        settings.valid(),
    ensures
        advance_n(Session::start(settings), (2 * settings.interval_target) as nat).interval_count
            == settings.interval_target - 1,
{
    lemma_trace(settings, settings.interval_target - 1);
}

/// In a fresh session, the break that follows the `k`-th focus interval is a
/// long break exactly when `k` is a multiple of the long-break interval.
pub proof fn lemma_long_break_placement(settings: Settings, k: int)
    requires
        settings.valid(),
        1 <= k < settings.interval_target,
    ensures
        advance_n(Session::start(settings), (2 * k - 1) as nat).state is Focus,
        advance_n(Session::start(settings), (2 * k - 1) as nat).interval_count == k - 1,
        advance_n(Session::start(settings), (2 * k) as nat).state is LongBreak <==> k
            % settings.long_break_interval as int == 0,
        advance_n(Session::start(settings), (2 * k) as nat).state is Break <==> k
            % settings.long_break_interval as int != 0,
{
    lemma_trace(settings, k - 1);
}

} // verus!
