//! Resilient session layer for an ambient-lighting capture agent.
//!
//! The crate maintains a self-healing connection to a remote color-rendering
//! server: an explicit connection state machine with exponential-backoff
//! retry and distinct failure accounting, the length-prefixed wire codec and
//! registration handshake the server speaks, a cheap inline health check,
//! and a read-only statistics snapshot.  All outside effects (sockets, the
//! clock, log files) are handled by the caller, which drives the state
//! machine with plain values and events.

pub mod codec;
pub mod config;
pub mod diagnostics;
pub mod errors;
pub mod session;
