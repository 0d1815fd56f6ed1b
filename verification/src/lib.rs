//! The decision logic of a small tour of an asynchronous task runtime.
//!
//! The tour itself (sleeping, reading a file, spawning tasks, locking,
//! sending over a channel) is driven by an async executor outside this crate.
//! What lives here is everything in the tour that is a plain computation: the
//! CPU-bound filler work handed to worker threads, and the step functions that
//! tell the driver what to do next between two suspension points.

pub mod channel;
pub mod delay;
pub mod fibonacci;
pub mod serial;
pub mod shared_state;
pub mod timeout;

pub use fibonacci::fib;
