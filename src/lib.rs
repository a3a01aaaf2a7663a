//! A deterministic monotonic clock: instants and durations with verified
//! arithmetic, a time slot that an entry point arms with the block time, and
//! clocks that read it.

use vstd::prelude::*;

pub mod clock;
pub mod duration;
pub mod instant;
pub mod monotonic_time;

pub use clock::{Clock, FixedClock, StdClock};
pub use duration::JsDuration;
pub use instant::JsInstant;
pub use monotonic_time::{clear_time, next_duration, set_time_nanos, TimeSlot};
