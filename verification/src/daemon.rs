//! The daemon's decisions: how a client's line becomes a request, what is asked of
//! the coordinator, how each parked operation goes on, and what is answered.
//!
//! Sockets, the clock, the coordinator and its store are outside: what they give
//! comes in as arguments, and what they are to do goes out as values.

use vstd::prelude::*;

pub mod adopt;
pub mod answers;
pub mod clear;
pub mod decides;
pub mod dispatch;
pub mod due;
pub mod errors;
pub mod framing;
pub mod goes;
pub mod inbox;
pub mod inflight;
pub mod jobs;
pub mod message;
pub mod params;
pub mod parked;
pub mod passes;
pub mod poll;
pub mod prompt;
pub mod reaches;
pub mod reads;
pub mod rename;
pub mod renew;
pub mod report;
pub mod results;
pub mod retire;
pub mod route;
pub mod send;
pub mod serving;
pub mod shown;
pub mod start;
pub mod told;

verus! {

/// Unless told otherwise, an unanswered ask is reminded of after five minutes.
pub const DEFAULT_REMINDER_INTERVAL_MS: i64 = 300_000;

/// A client must finish sending its request line within this window.
pub const CLIENT_REQUEST_DEADLINE_MS: u64 = 10_000;

/// Bound response writes so a stuck peer cannot freeze the loop.
pub const CLIENT_WRITE_TIMEOUT_MS: u64 = 5_000;

/// Log any poll phase or whole pass that runs this long.
pub const SLOW_POLL_MS: u64 = 1_000;

/// How many clients one pass accepts.
pub const MAX_ACCEPTS_PER_POLL: usize = 16;

/// How long a request may be.
pub const MAX_REQUEST_BYTES: usize = 65_536;

} // verus!
