//! The decision core of a small actor framework.
//!
//! Everything that waits (channels that are awaited, executors, threads, the operating system's
//! signals) is driven from outside. What is decided in between is in here, with contracts.
pub mod actor;
pub mod actors;
pub mod broadcast;
pub mod channel;
pub mod deferred_span;
pub mod graceful_termination;
pub mod heart;
pub mod kill_switch;
pub mod multi_lock;
pub mod nonzero;
pub mod poll;
pub mod signals;
pub mod stream_utils;
pub mod utils;
pub mod whatever;
