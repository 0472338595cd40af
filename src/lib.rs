//! A Pomodoro focus timer: the interval state machine that moves between
//! focus and break phases, and the run-state controller that accumulates
//! elapsed time from host ticks and advances the machine.

pub mod pomodori;
pub mod timer;
pub mod pomodori_manager;
