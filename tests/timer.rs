use pomodorable::pomodori::{Settings, State};
use pomodorable::timer::{Pomodorable, RunState};

const MINUTE: u64 = 60_000;

/// Ticks every second from `*now` until the phase changes; returns the
/// number of ticks.
fn run_phase(t: &mut Pomodorable, now: &mut u64) -> u64 {
    let start = t.pomodori().get_state();
    let mut ticks = 0;
    while t.pomodori().get_state() == start {
        *now += 1000;
        t.tick(*now);
        ticks += 1;
    }
    ticks
}

#[test]
fn default_scenario() {
    let mut t = Pomodorable::new();
    assert!(!t.is_running());
    assert_eq!(t.pomodori().get_state(), State::Ready);
    let mut now = 0;
    t.toggle(now);
    assert!(t.is_running());
    assert_eq!(t.pomodori().get_state(), State::Focus);
    assert_eq!(t.elapsed(), 0);

    // 25 minutes and one second of ticks end the first focus phase
    assert_eq!(run_phase(&mut t, &mut now), 25 * 60 + 1);
    assert_eq!(t.pomodori().get_state(), State::Break);
    assert_eq!(t.elapsed(), 0);
    assert!(t.is_running());

    let mut breaks = vec![State::Break];
    let mut focus_phases = 1;
    loop {
        run_phase(&mut t, &mut now);
        let s = t.pomodori().get_state();
        if s == State::Focus {
            focus_phases += 1;
        } else if s == State::Finished {
            break;
        } else {
            breaks.push(s);
        }
    }
    assert_eq!(focus_phases, 10);
    assert_eq!(breaks.len(), 9);
    for (i, b) in breaks.iter().enumerate() {
        let k = i + 1;
        let expected = if k % 4 == 0 { State::LongBreak } else { State::Break };
        assert_eq!(*b, expected, "break after interval {k}");
    }
    assert_eq!(t.pomodori().get_interval_count(), 9);
    assert!(t.is_running());

    now += 100;
    t.tick(now);
    assert!(!t.is_running());
    assert_eq!(t.elapsed(), 0);
    assert_eq!(t.pomodori().get_state(), State::Finished);
}

#[test]
fn tick_at_phase_length_does_not_advance() {
    let mut t = Pomodorable::new();
    t.toggle(0);
    t.tick(25 * MINUTE);
    assert_eq!(t.pomodori().get_state(), State::Focus);
    assert_eq!(t.elapsed(), 25 * MINUTE);
    assert_eq!(t.remaining(), 0);
    t.tick(25 * MINUTE + 1);
    assert_eq!(t.pomodori().get_state(), State::Break);
    assert_eq!(t.elapsed(), 0);
}

#[test]
fn skip_while_finished_changes_nothing() {
    let settings = Settings {
        focus_length: 1,
        short_break_length: 1,
        long_break_length: 1,
        long_break_interval: 2,
        interval_target: 1,
    };
    let mut t = Pomodorable::with_settings(settings);
    t.toggle(0);
    t.skip_command();
    assert_eq!(t.pomodori().get_state(), State::Finished);
    let running = t.is_running();
    let elapsed = t.elapsed();
    t.skip_command();
    assert_eq!(t.pomodori().get_state(), State::Finished);
    assert_eq!(t.pomodori().get_interval_count(), 0);
    assert_eq!(t.is_running(), running);
    assert_eq!(t.elapsed(), elapsed);
}

#[test]
fn reset_command_while_ready_is_noop() {
    let mut t = Pomodorable::new();
    t.reset_command();
    assert_eq!(t.pomodori().get_state(), State::Ready);
    assert_eq!(t.pomodori().get_interval_count(), 0);
    assert!(!t.is_running());
    assert_eq!(t.elapsed(), 0);
}

#[test]
fn reset_command_while_focus() {
    let mut t = Pomodorable::new();
    t.toggle(0);
    t.skip_command();
    t.skip_command();
    t.tick(5_000);
    assert_eq!(t.pomodori().get_state(), State::Focus);
    assert_eq!(t.pomodori().get_interval_count(), 1);
    assert_eq!(t.elapsed(), 5_000);
    t.reset_command();
    assert_eq!(t.pomodori().get_state(), State::Ready);
    assert_eq!(t.pomodori().get_interval_count(), 0);
    assert!(!t.is_running());
    assert_eq!(t.elapsed(), 0);
}

#[test]
fn split_ticks_match_one_tick() {
    let mut a = Pomodorable::new();
    let mut b = Pomodorable::new();
    a.toggle(1_000);
    b.toggle(1_000);
    a.tick(4_500);
    a.tick(9_000);
    b.tick(9_000);
    assert_eq!(a.elapsed(), 8_000);
    assert_eq!(b.elapsed(), 8_000);
    assert_eq!(a.get_run_state(), b.get_run_state());
    assert_eq!(a.get_run_state(), RunState::Running { last_tick: 9_000 });
}

#[test]
fn pause_keeps_elapsed() {
    let mut t = Pomodorable::new();
    t.toggle(0);
    t.tick(10_000);
    t.toggle(10_500);
    assert!(!t.is_running());
    assert_eq!(t.elapsed(), 10_000);
    // ticks while paused count nothing
    t.tick(50_000);
    assert_eq!(t.elapsed(), 10_000);
    t.toggle(60_000);
    assert!(t.is_running());
    assert_eq!(t.pomodori().get_state(), State::Focus);
    t.tick(61_000);
    assert_eq!(t.elapsed(), 11_000);
}

#[test]
fn earlier_tick_adds_nothing() {
    let mut t = Pomodorable::new();
    t.toggle(10_000);
    t.tick(4_000);
    assert_eq!(t.elapsed(), 0);
    assert_eq!(t.get_run_state(), RunState::Running { last_tick: 4_000 });
}

#[test]
fn skip_keeps_run_state() {
    let mut t = Pomodorable::new();
    t.toggle(0);
    t.tick(3_000);
    t.skip_command();
    assert_eq!(t.pomodori().get_state(), State::Break);
    assert_eq!(t.elapsed(), 0);
    assert!(t.is_running());
    t.toggle(4_000);
    t.skip_command();
    assert_eq!(t.pomodori().get_state(), State::Focus);
    assert!(!t.is_running());
}

#[test]
fn toggle_after_finished_starts_over() {
    let settings = Settings {
        focus_length: 1,
        short_break_length: 1,
        long_break_length: 1,
        long_break_interval: 2,
        interval_target: 2,
    };
    let mut t = Pomodorable::with_settings(settings);
    t.toggle(0);
    t.skip_command();
    t.skip_command();
    t.skip_command();
    assert_eq!(t.pomodori().get_state(), State::Finished);
    t.tick(100);
    assert!(!t.is_running());
    t.toggle(200);
    assert!(t.is_running());
    assert_eq!(t.pomodori().get_state(), State::Focus);
    assert_eq!(t.pomodori().get_interval_count(), 0);
    assert_eq!(t.elapsed(), 0);
}

#[test]
fn countdown_shows_minutes_and_seconds() {
    let mut t = Pomodorable::new();
    assert_eq!(t.countdown(), (25, 0));
    t.toggle(0);
    t.tick(61_500);
    assert_eq!(t.remaining(), 25 * MINUTE - 61_500);
    assert_eq!(t.countdown(), (23, 58));
}

#[test]
fn countdown_wraps_at_the_hour() {
    let settings = Settings {
        focus_length: 90,
        short_break_length: 5,
        long_break_length: 30,
        long_break_interval: 4,
        interval_target: 10,
    };
    let t = Pomodorable::with_settings(settings);
    assert_eq!(t.remaining(), 90 * MINUTE);
    assert_eq!(t.countdown(), (30, 0));
}

#[test]
fn quote_kept_while_phase_stays() {
    let mut t = Pomodorable::new();
    let q = t.pomodori().get_quote();
    t.reset_command();
    assert_eq!(t.pomodori().get_quote(), q);
    t.toggle(0);
    let q = t.pomodori().get_quote();
    for k in 1..50 {
        t.tick(k * 1000);
        assert_eq!(t.pomodori().get_quote(), q);
    }
    t.toggle(60_000);
    t.toggle(70_000);
    assert_eq!(t.pomodori().get_quote(), q);
}

#[test]
fn skip_while_finished_keeps_quote() {
    let mut t = Pomodorable::new();
    t.toggle(0);
    for _ in 0..19 {
        t.skip_command();
    }
    assert_eq!(t.pomodori().get_state(), State::Finished);
    let q = t.pomodori().get_quote();
    let count = t.pomodori().get_interval_count();
    t.skip_command();
    assert_eq!(t.pomodori().get_state(), State::Finished);
    assert_eq!(t.pomodori().get_quote(), q);
    assert_eq!(t.pomodori().get_interval_count(), count);
    assert!(t.is_running());
    assert_eq!(t.elapsed(), 0);
}
