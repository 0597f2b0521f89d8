//! A recurring timer that re-bases each deadline on the completion of the
//! previous wait, so that an overrun never leaves a backlog of overdue ticks.
//!
//! Instants are nanoseconds on a monotonic clock, counted from an origin that
//! the caller chooses; durations are nanoseconds too.
pub mod interval;
pub mod schedule;

pub use interval::{Interval, IntervalView, Progress, State, TimerPoll};
