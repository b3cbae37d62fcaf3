//! A deterministic virtual clock for testing code whose behaviour depends on time.
//!
//! Each thread under test has a local clock (`clock::LocalClock`); the threads of one
//! test share a `shared_clock::SharedClock` that holds the shared virtual time, counts
//! the timed waits of each thread, and queues the wakers of pending delays
//! (`waker_queue`). Timed waits advance the clock at once, or, where the thread is
//! frozen, block until another thread advances it. `Instant` and `SystemTime` read
//! either the system's clock or the mocked one.

pub mod clock;
pub mod delay;
pub mod duration;
pub mod error;
pub mod instant;
pub mod laws;
pub mod mock;
pub mod shared_clock;
mod std_time;
pub mod system_time;
pub mod timepoint;
pub mod waker_queue;

pub use duration::Duration;
pub use error::ChronobreakError;
pub use instant::Instant;
pub use mock::Mock;
pub use system_time::SystemTime;
pub use timepoint::Timepoint;

