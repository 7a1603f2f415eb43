//! A dispatcher that lets many asynchronous callers hand configured transfers to
//! a blocking transfer engine and get exactly one reply for each.
//!
//! The crate holds the parts that decide: the error taxonomy, the two ways of
//! driving the engine to completion, the request envelope with its reply
//! channel, and the worker's protocol. Spawning tasks and awaiting channels is
//! left to the caller's runtime.

pub mod error;
pub mod engine;
pub mod channel;
pub mod actor;
pub mod async_curl;
pub mod registered;
pub mod worker;
