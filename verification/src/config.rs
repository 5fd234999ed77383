//! Immutable configuration of the session layer.

use vstd::prelude::*;

verus! {

/// Connection settings consumed by the session state machine.  All durations
/// are in milliseconds; the caller supplies the clock, so the fields are
/// plain values with no hidden unit conversions.
#[derive(Debug, Clone)]
pub struct ConnectionConfig {
    /// `host:port` of the color-rendering server.
    pub address: String,
    /// Number of consecutive connect failures after which the session
    /// becomes `Failed` (terminal until an explicit reset).
    pub max_retries: u32,
    /// Backoff applied after the first connect failure.
    pub initial_backoff_ms: u64,
    /// Cap on the exponentially growing backoff.
    pub max_backoff_ms: u64,
    /// Timeout for opening the transport and for its reads and writes.
    pub connection_timeout_ms: u64,
    /// Minimum time between two inline health checks.
    pub health_check_interval_ms: u64,
}

impl ConnectionConfig {
    /// A configuration is usable when at least one connect attempt is
    /// allowed before the session is declared permanently failed.
    pub open spec fn wf(&self) -> bool {
        self.max_retries >= 1
    }
}

impl Default for ConnectionConfig {
    /// Conventional defaults: local server, five attempts, backoff growing
    /// from 100 ms to a 5 s cap, 3 s I/O timeout, 30 s health interval.
    fn default() -> (r: Self)
        ensures
            r.wf(),
            r.address@ == "127.0.0.1:19400"@,
            r.max_retries == 5,
            r.initial_backoff_ms == 100,
            r.max_backoff_ms == 5000,
            r.connection_timeout_ms == 3000,
            r.health_check_interval_ms == 30000,
    {
        ConnectionConfig {
            address: "127.0.0.1:19400".to_owned(),
            max_retries: 5,
            initial_backoff_ms: 100,
            max_backoff_ms: 5000,
            connection_timeout_ms: 3000,
            health_check_interval_ms: 30000,
        }
    }
}

} // verus!
