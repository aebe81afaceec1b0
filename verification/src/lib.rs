//! Strategies for waiting an approximate time on a platform whose sleep is
//! coarse.
//!
//! A strategy is a [`Limiter`]: it decides, step by step, how a wait is spent,
//! and leaves the sleeping and the reading of the clock to its driver. The
//! strategies differ in how much accuracy they buy and what they pay for it:
//!
//! - [`standard_sleep`]: one sleep for the requested time;
//! - [`time_period_standard_sleep`]: the same under a finer timer period;
//! - [`time_period_close_sleep`]: sleeps for half of what is left, again and
//!   again, each time by the clock;
//! - [`time_period_close_sleep_once`]: one sleep that ends early by a margin,
//!   and a spin through the margin.
//!
//! [`time_period`] keeps the request for the finer timer period, [`duration`]
//! the spans of time that all of this is stated in.

pub mod duration;
pub mod duration_sample;
pub mod process_times;
pub mod standard_sleep;
pub mod time_period;
pub mod time_period_close_sleep;
pub mod time_period_close_sleep_once;
pub mod time_period_standard_sleep;
pub mod wait;

mod clock;

pub use duration::Duration;
pub use wait::Limiter;
pub use wait::Step;
pub use wait::TimedWait;
pub use wait::Wait;
