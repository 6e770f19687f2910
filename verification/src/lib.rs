//! A process-presence monitor: the event vocabulary, the matching policy of
//! the process sampler, and the state machine of the monitor worker.
//!
//! The library decides; the host performs. Whatever suspends or touches the
//! operating system (waiting out a delay, listing the live processes, sending
//! on the channel) is named by a [`worker::WorkerAction`] and done by the
//! host, which reports what came of it as a [`worker::WorkerInput`].

pub mod error;
pub mod events;
pub mod listing;
pub mod sampler;
pub mod trace;
pub mod worker;
