//! A typed request/response messaging layer above a stream broker: the wire
//! contract, the correlation envelope, content-type checked packing, and the
//! decisions of connection setup and of the drain that consumes a stream.
//!
//! The crate never talks to the broker itself. Whoever owns the connection
//! carries out the actions that the state machines here ask for and reports
//! back what happened; payloads are encoded and decoded by functions that
//! the caller hands in.
use vstd::prelude::*;

pub mod channel;
pub mod client;
pub mod drain;
pub mod error;
pub mod message;
pub mod meta;
pub mod pack;
pub mod payload;
pub mod server;
pub mod setup;
pub mod transaction;
pub mod transport;

verus! {

/// How long one read attempt of a drain waits for a message, in microseconds.
pub const DRAIN_TIMEOUT_MICROS: u64 = 10;

} // verus!
