//! A periodic interval timer, as a handle that owns one armed timer.
//!
//! The library decides *what* is asked of the operating system's
//! interval-timer facility and *when*: it turns a frequency into a period,
//! builds the request that arms a timer when a handle is made, and the request
//! that cancels it when the handle is given up. Carrying a request to the
//! facility is left to the caller.

pub mod interval;
pub mod request;
pub mod slots;
pub mod timer;

pub use interval::{Interval, MICROS_PER_SEC};
pub use request::{Schedule, TimerRequest};
pub use slots::TimerSlots;
pub use timer::{Timer, TimerStyle, TimerView};
