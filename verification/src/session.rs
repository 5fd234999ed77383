//! The session state machine: connection lifecycle, exponential backoff,
//! failure accounting, inline health checks, and the statistics snapshot.
//!
//! The manager owns no socket.  The caller performs every outside effect —
//! opening the transport, running the handshake, writing frames, probing
//! liveness, reading the clock — and drives the machine with the results:
//! `ensure_connected` decides what to do next, `connect_succeeded` and
//! `handle_connection_failure` report a connect attempt's outcome, and
//! `record_send_result` reports a frame write's outcome.  Every transition
//! is stated as a spec-level function, so the behavioral laws of the layer
//! are proved once, below, over those functions.

use vstd::arithmetic::power2::pow2;
use vstd::prelude::*;

use crate::codec::{encode_command_framed, spec_frame, spec_payload, Command, RgbRaster};
use crate::config::ConnectionConfig;
use crate::errors::IoErrorKind;

verus! {

/// Lifecycle phase of the session.
#[derive(Debug, Clone, Copy, PartialEq, Eq, Structural)]
pub enum ConnectionState {
    Connected,
    Disconnected,
    Reconnecting,
    Failed,
}

impl ConnectionState {
    /// Human-readable name of the state, for logs and telemetry.
    pub fn label(self) -> (r: &'static str)
        ensures
            self is Connected ==> r@ == "Connected"@,
            self is Disconnected ==> r@ == "Disconnected"@,
            self is Reconnecting ==> r@ == "Reconnecting"@,
            self is Failed ==> r@ == "Failed"@,
    {
        match self {
            ConnectionState::Connected => "Connected",
            ConnectionState::Disconnected => "Disconnected",
            ConnectionState::Reconnecting => "Reconnecting",
            ConnectionState::Failed => "Failed",
        }
    }
}

/// What `ensure_connected` asks of the caller.
#[derive(Debug, Clone, Copy, PartialEq, Eq, Structural)]
pub enum EnsureOutcome {
    /// A healthy transport is installed; use the carried handle.
    Ready(u64),
    /// The machine has marked an attempt as started: open the transport,
    /// run the handshake, then report `connect_succeeded` or
    /// `handle_connection_failure`.
    Connect,
    /// The backoff window has not elapsed; try again later.
    BackoffActive,
    /// The session is permanently failed until an explicit reset.
    Unavailable,
}

/// What `send_image_with_fallback` asks of the caller.
#[derive(Debug)]
pub enum SendPlan {
    /// Write `frame` on the transport named by `transport_id`, then report
    /// the outcome through `record_send_result`.
    Transmit { transport_id: u64, frame: Vec<u8> },
    /// No usable session, but a connect attempt is due: perform it, report
    /// its outcome, and offer the frame again.
    ConnectFirst,
    /// Not sent; backoff is still active, the frame is skipped this tick.
    NotSentBackoff,
    /// Not sent; the session is permanently failed, keep capturing without
    /// the lighting effect.
    NotSentFallback,
}

/// Read-only projection of the session's counters, safe to sample at any
/// cadence; sampling mutates nothing.
#[derive(Debug, Clone, Copy, PartialEq, Eq, Structural)]
pub struct ConnectionStats {
    pub state: ConnectionState,
    pub consecutive_failures: u32,
    pub total_reconnections: u32,
    /// Seconds since the last successful connect; 0 if none happened yet.
    pub uptime_seconds: u64,
    /// Milliseconds since the last connect attempt; 0 if none happened yet.
    pub last_attempt_ago_ms: u64,
}

/// `min(initial_backoff * 2^(max(failures - 1, 0)), max_backoff)`: the delay
/// required before the connect attempt after `failures` consecutive
/// failures.  A pure function of the counter and the configuration.
pub open spec fn spec_backoff_ms(config: ConnectionConfig, failures: u32) -> int {
    vstd::math::min(
        config.initial_backoff_ms * pow2(if failures == 0 {
            0
        } else {
            (failures - 1) as nat
        }),
        config.max_backoff_ms as int,
    )
}

/// Milliseconds from `since_ms` to `now_ms`, 0 if the clock moved backward.
pub open spec fn spec_elapsed_ms(now_ms: u64, since_ms: u64) -> u64 {
    now_ms.saturating_sub(since_ms)
}

/// The resilient session manager: decides when to (re)connect, tracks
/// failure counters, computes backoff, and exposes "ensure usable session".
#[derive(Debug)]
pub struct HyperionConnectionManager {
    pub config: ConnectionConfig,
    /// Caller-assigned handle of the installed transport; present if and
    /// only if the state is `Connected`.
    pub transport: Option<u64>,
    pub state: ConnectionState,
    /// When the latest connect attempt started, if any.
    pub last_connection_attempt: Option<u64>,
    /// Consecutive connect failures; drives backoff and the `Failed`
    /// transition, reset by a successful connect or an explicit reset.
    pub consecutive_failures: u32,
    /// When the health check last ran.
    pub last_health_check: u64,
    /// Monotonic count of detected mid-session drops.
    pub total_reconnections: u32,
    /// When the latest successful connect completed, if any.
    pub connection_start_time: Option<u64>,
}

impl HyperionConnectionManager {
    /// Invariant of every reachable session value: the transport handle
    /// exists exactly in `Connected`; the failure counter never passes the
    /// retry limit and reaches it exactly in `Failed`; a `Reconnecting`
    /// session remembers when its attempt started.
    pub open spec fn wf(self) -> bool {
        &&& self.config.wf()
        &&& self.consecutive_failures <= self.config.max_retries
        &&& (self.state is Failed <==> self.consecutive_failures == self.config.max_retries)
        &&& (self.transport is Some <==> self.state is Connected)
        &&& (self.state is Reconnecting ==> self.last_connection_attempt is Some)
    }

    /// A usable session: connected with a transport installed.
    pub open spec fn spec_is_connected(self) -> bool {
        self.state is Connected && self.transport is Some
    }

    /// The health check runs when at least the configured interval has
    /// passed since it last ran.
    pub open spec fn spec_health_due(self, now_ms: u64) -> bool {
        spec_elapsed_ms(now_ms, self.last_health_check) >= self.config.health_check_interval_ms
    }

    /// The backoff window has elapsed since the latest attempt started.
    pub open spec fn spec_backoff_elapsed(self, now_ms: u64) -> bool {
        self.last_connection_attempt matches Some(t) && spec_elapsed_ms(now_ms, t)
            >= spec_backoff_ms(self.config, self.consecutive_failures)
    }

    /// The health probe's effect: a `Connected` session whose transport is
    /// dead is demoted to `Disconnected` and drops the handle; counters are
    /// untouched, and in any other state nothing changes at all.
    pub open spec fn spec_after_health_probe(self, transport_alive: bool) -> Self {
        if self.state is Connected && !transport_alive {
            Self { transport: None, state: ConnectionState::Disconnected, ..self }
        } else {
            self
        }
    }

    /// The inline health-check step of `ensure_connected`: when due, stamp
    /// the check time and apply the probe's effect.
    pub open spec fn spec_after_health_step(self, now_ms: u64, transport_alive: bool) -> Self {
        if self.spec_health_due(now_ms) {
            Self {
                last_health_check: now_ms,
                ..self.spec_after_health_probe(transport_alive)
            }
        } else {
            self
        }
    }

    /// What `ensure_connected` decides once the health-check step has been
    /// applied: use the installed transport, give up permanently, attempt a
    /// connect, or keep waiting out the backoff.
    pub open spec fn spec_ensure_decision(self, now_ms: u64) -> EnsureOutcome {
        match self.state {
            ConnectionState::Connected => EnsureOutcome::Ready(self.transport.unwrap()),
            ConnectionState::Failed => EnsureOutcome::Unavailable,
            ConnectionState::Disconnected => EnsureOutcome::Connect,
            ConnectionState::Reconnecting => if self.spec_backoff_elapsed(now_ms) {
                EnsureOutcome::Connect
            } else {
                EnsureOutcome::BackoffActive
            },
        }
    }

    /// Marks a connect attempt as started: `Reconnecting`, attempt time
    /// stamped.
    pub open spec fn spec_begin_attempt(self, now_ms: u64) -> Self {
        Self {
            state: ConnectionState::Reconnecting,
            last_connection_attempt: Some(now_ms),
            ..self
        }
    }

    /// The full effect of `ensure_connected`: the health-check step, then —
    /// only when a connect is decided — the attempt marking.
    pub open spec fn spec_after_ensure(self, now_ms: u64, transport_alive: bool) -> Self {
        let checked = self.spec_after_health_step(now_ms, transport_alive);
        if checked.spec_ensure_decision(now_ms) is Connect {
            checked.spec_begin_attempt(now_ms)
        } else {
            checked
        }
    }

    /// A successful connect (transport opened and handshake completed)
    /// installs the handle, zeroes the failure counter and stamps the
    /// connection start.
    pub open spec fn spec_after_connect_success(self, transport_id: u64, now_ms: u64) -> Self {
        Self {
            transport: Some(transport_id),
            state: ConnectionState::Connected,
            consecutive_failures: 0,
            connection_start_time: Some(now_ms),
            ..self
        }
    }

    /// A failed connect attempt (TCP-level or handshake-level, counted
    /// identically) bumps the failure counter; at the retry limit the
    /// session becomes `Failed`, otherwise it stays `Reconnecting` with the
    /// grown backoff pending.
    pub open spec fn spec_after_connection_failure(self) -> Self {
        let bumped = (self.consecutive_failures + 1) as u32;
        if bumped >= self.config.max_retries {
            Self {
                transport: None,
                state: ConnectionState::Failed,
                consecutive_failures: bumped,
                ..self
            }
        } else {
            Self {
                transport: None,
                state: ConnectionState::Reconnecting,
                consecutive_failures: bumped,
                ..self
            }
        }
    }

    /// A reconnectable runtime error tears the session down to
    /// `Disconnected`, counts the drop, and — distinctly from connect
    /// failures — resets the consecutive-failure counter, so one transient
    /// drop after a long healthy session cannot inherit stale history and
    /// fast-track into `Failed`.
    pub open spec fn spec_after_network_error(self, kind: IoErrorKind) -> Self {
        if kind.spec_is_reconnectable() {
            Self {
                transport: None,
                state: ConnectionState::Disconnected,
                total_reconnections: (self.total_reconnections + 1) as u32,
                consecutive_failures: 0,
                ..self
            }
        } else {
            self
        }
    }

    /// `reset_failure_state` acts only on a `Failed` session: demote to
    /// `Disconnected` with the counter zeroed, so the next ensure connects
    /// immediately.
    pub open spec fn spec_after_reset(self) -> Self {
        if self.state is Failed {
            Self {
                state: ConnectionState::Disconnected,
                consecutive_failures: 0,
                ..self
            }
        } else {
            self
        }
    }

    /// `force_reconnect` unconditionally drops the handle, demotes to
    /// `Disconnected` and zeroes the counter.
    pub open spec fn spec_after_force_reconnect(self) -> Self {
        Self {
            transport: None,
            state: ConnectionState::Disconnected,
            consecutive_failures: 0,
            ..self
        }
    }

    /// A fresh manager: disconnected, all counters zero, the health-check
    /// clock anchored at `now_ms`.
    pub fn new(config: ConnectionConfig, now_ms: u64) -> (r: Self)
        requires
            config.wf(),
        ensures
            r.wf(),
            r.config == config,
            r.state is Disconnected,
            r.transport is None,
            r.last_connection_attempt is None,
            r.consecutive_failures == 0,
            r.total_reconnections == 0,
            r.connection_start_time is None,
            r.last_health_check == now_ms,
    {
        HyperionConnectionManager {
            config,
            transport: None,
            state: ConnectionState::Disconnected,
            last_connection_attempt: None,
            consecutive_failures: 0,
            last_health_check: now_ms,
            total_reconnections: 0,
            connection_start_time: None,
        }
    }

    /// The backoff required before the next connect attempt, given the
    /// current failure counter: the base backoff doubled per failure past
    /// the first, capped at the configured maximum.
    pub fn calculate_backoff_duration(&self) -> (r: u64)
        ensures
            r == spec_backoff_ms(self.config, self.consecutive_failures),
    {
        let exp: u32 = if self.consecutive_failures > 0 {
            self.consecutive_failures - 1
        } else {
            0
        };
        let base: u64 = self.config.initial_backoff_ms;
        let cap: u64 = self.config.max_backoff_ms;
        let ghost e: nat = exp as nat;
        let raw: u64 = if exp >= 64 {
            if base == 0 {
                0
            } else {
                u64::MAX
            }
        } else {
            let exp64: u64 = exp as u64;
            proof {
                vstd::bits::lemma_u64_pow2_no_overflow(e);
                vstd::bits::lemma_u64_shl_is_mul(1u64, exp64);
            }
            match base.checked_mul(1u64 << exp64) {
                Some(v) => v,
                None => u64::MAX,
            }
        };
        let r: u64 = if raw < cap {
            raw
        } else {
            cap
        };
        proof {
            let p = pow2(e);
            let prod = base * p;
            assert(spec_backoff_ms(self.config, self.consecutive_failures) == vstd::math::min(
                prod,
                cap as int,
            ));
            if exp >= 64 {
                vstd::arithmetic::power2::lemma2_to64_rest();
                if e > 64 {
                    vstd::arithmetic::power2::lemma_pow2_strictly_increases(64, e);
                }
                assert(p > u64::MAX);
                if base == 0 {
                    assert(prod == 0) by (nonlinear_arith)
                        requires
                            base == 0,
                            prod == base * p,
                    ;
                    assert(raw == 0);
                } else {
                    assert(prod >= p) by (nonlinear_arith)
                        requires
                            base >= 1,
                            p >= 0,
                            prod == base * p,
                    ;
                    assert(raw == u64::MAX);
                }
            } else {
                vstd::bits::lemma_u64_pow2_no_overflow(e);
                assert(p < u64::MAX);
                assert((1u64 << (exp as u64)) == p);
                if prod > u64::MAX {
                    assert(raw == u64::MAX);
                } else {
                    assert(raw == prod);
                }
            }
            assert(r == vstd::math::min(prod, cap as int));
        }
        r
    }

    /// Whether the inline health check is due at `now_ms`.
    pub fn health_check_due(&self, now_ms: u64) -> (r: bool)
        ensures
            r == self.spec_health_due(now_ms),
    {
        now_ms.saturating_sub(self.last_health_check) >= self.config.health_check_interval_ms
    }

    /// Applies the health probe's result: demotes a `Connected` session
    /// whose transport is dead and drops the handle, touching neither
    /// failure counter; in every other state this is a no-op.  The caller
    /// obtains `transport_alive` from a local, non-blocking introspection
    /// of its socket — never a round trip.
    pub fn perform_health_check(&mut self, transport_alive: bool)
        requires
            old(self).wf(),
        ensures
            *final(self) == old(self).spec_after_health_probe(transport_alive),
            final(self).wf(),
    {
        match self.state {
            ConnectionState::Connected => {
                if !transport_alive {
                    self.transport = None;
                    self.state = ConnectionState::Disconnected;
                }
            },
            _ => {},
        }
    }

    /// Ensures a usable session, reconnecting if necessary.  Runs the
    /// health check first when its interval has elapsed.  From `Connected`
    /// the installed transport is returned; from `Failed` the call is
    /// refused without any attempt; from `Disconnected` an attempt is
    /// started; from `Reconnecting` an attempt is started only once the
    /// computed backoff has elapsed since the last one.
    pub fn ensure_connected(&mut self, now_ms: u64, transport_alive: bool) -> (r: EnsureOutcome)
        requires
            old(self).wf(),
        ensures
            *final(self) == old(self).spec_after_ensure(now_ms, transport_alive),
            r == old(self).spec_after_health_step(now_ms, transport_alive).spec_ensure_decision(
                now_ms,
            ),
            final(self).wf(),
    {
        if self.health_check_due(now_ms) {
            self.perform_health_check(transport_alive);
            self.last_health_check = now_ms;
        }
        match self.state {
            ConnectionState::Connected => EnsureOutcome::Ready(self.transport.unwrap()),
            ConnectionState::Failed => EnsureOutcome::Unavailable,
            ConnectionState::Disconnected => {
                self.state = ConnectionState::Reconnecting;
                self.last_connection_attempt = Some(now_ms);
                EnsureOutcome::Connect
            },
            ConnectionState::Reconnecting => {
                let since = self.last_connection_attempt.unwrap();
                let backoff = self.calculate_backoff_duration();
                if now_ms.saturating_sub(since) >= backoff {
                    self.state = ConnectionState::Reconnecting;
                    self.last_connection_attempt = Some(now_ms);
                    EnsureOutcome::Connect
                } else {
                    EnsureOutcome::BackoffActive
                }
            },
        }
    }

    /// Reports that the connect attempt requested by `Connect` opened the
    /// transport and completed the handshake: the session is `Connected`
    /// with the handle installed, the failure counter cleared and the
    /// connection start stamped.
    pub fn connect_succeeded(&mut self, transport_id: u64, now_ms: u64)
        requires
            old(self).wf(),
            old(self).state is Reconnecting,
        ensures
            *final(self) == old(self).spec_after_connect_success(transport_id, now_ms),
            final(self).wf(),
            final(self).spec_is_connected(),
    {
        self.transport = Some(transport_id);
        self.state = ConnectionState::Connected;
        self.consecutive_failures = 0;
        self.connection_start_time = Some(now_ms);
    }

    /// Reports that the connect attempt requested by `Connect` failed —
    /// opening the transport and failing the handshake count identically.
    /// The failure counter grows; at the retry limit the session becomes
    /// `Failed`, terminal until an explicit reset.
    pub fn handle_connection_failure(&mut self)
        requires
            old(self).wf(),
            old(self).state is Reconnecting,
        ensures
            *final(self) == old(self).spec_after_connection_failure(),
            final(self).wf(),
    {
        self.consecutive_failures = self.consecutive_failures + 1;
        self.transport = None;
        if self.consecutive_failures >= self.config.max_retries {
            self.state = ConnectionState::Failed;
        } else {
            self.state = ConnectionState::Reconnecting;
        }
    }

    /// Classifies an I/O error from an established session.  Reconnectable
    /// kinds (broken pipe, connection aborted, connection reset, unexpected
    /// end-of-stream) tear the session down for a retry and return `true`;
    /// anything else changes nothing and returns `false` so the caller can
    /// propagate it as fatal.
    pub fn handle_network_error(&mut self, kind: IoErrorKind) -> (reconnect: bool)
        requires
            old(self).wf(),
            old(self).total_reconnections < u32::MAX,
        ensures
            reconnect == kind.spec_is_reconnectable(),
            *final(self) == old(self).spec_after_network_error(kind),
            final(self).wf(),
    {
        let reconnect = kind.is_reconnectable();
        if reconnect {
            self.transport = None;
            self.state = ConnectionState::Disconnected;
            self.total_reconnections = self.total_reconnections + 1;
            self.consecutive_failures = 0;
        }
        reconnect
    }

    /// The statistics snapshot: state, counters, seconds since the last
    /// successful connect, milliseconds since the last attempt.  No side
    /// effects.
    pub fn get_stats(&self, now_ms: u64) -> (r: ConnectionStats)
        ensures
            r.state == self.state,
            r.consecutive_failures == self.consecutive_failures,
            r.total_reconnections == self.total_reconnections,
            r.uptime_seconds == (match self.connection_start_time {
                Some(s) => spec_elapsed_ms(now_ms, s) / 1000,
                None => 0u64,
            }),
            r.last_attempt_ago_ms == (match self.last_connection_attempt {
                Some(t) => spec_elapsed_ms(now_ms, t),
                None => 0u64,
            }),
    {
        ConnectionStats {
            state: self.state,
            consecutive_failures: self.consecutive_failures,
            total_reconnections: self.total_reconnections,
            uptime_seconds: match self.connection_start_time {
                Some(s) => now_ms.saturating_sub(s) / 1000,
                None => 0,
            },
            last_attempt_ago_ms: match self.last_connection_attempt {
                Some(t) => now_ms.saturating_sub(t),
                None => 0,
            },
        }
    }

    /// Whether a usable session is installed.
    pub fn is_connected(&self) -> (r: bool)
        ensures
            r == self.spec_is_connected(),
    {
        matches!(self.state, ConnectionState::Connected) && self.transport.is_some()
    }

    /// Whether the session is permanently failed (no more retries).
    pub fn is_failed(&self) -> (r: bool)
        ensures
            r == (self.state is Failed),
    {
        matches!(self.state, ConnectionState::Failed)
    }

    /// Manual recovery: a `Failed` session is demoted to `Disconnected`
    /// with the failure counter cleared, so the next `ensure_connected`
    /// attempts a connect immediately, with no pending backoff.  In any
    /// other state this changes nothing.
    pub fn reset_failure_state(&mut self)
        requires
            old(self).wf(),
        ensures
            *final(self) == old(self).spec_after_reset(),
            final(self).wf(),
    {
        if matches!(self.state, ConnectionState::Failed) {
            self.state = ConnectionState::Disconnected;
            self.consecutive_failures = 0;
        }
    }

    /// Unconditionally drops the handle, demotes to `Disconnected` and
    /// clears the failure counter, whatever the current state.
    pub fn force_reconnect(&mut self)
        requires
            old(self).wf(),
        ensures
            *final(self) == old(self).spec_after_force_reconnect(),
            final(self).wf(),
    {
        self.transport = None;
        self.state = ConnectionState::Disconnected;
        self.consecutive_failures = 0;
    }

    /// One frame through "ensure usable session": when a transport is
    /// ready, the raster is encoded and framed for the caller to write
    /// (outcome then reported via `record_send_result`); when a connect is
    /// due, the caller attempts it first; during backoff and in permanent
    /// failure the frame is skipped — in particular, a `Failed` session
    /// yields the fallback answer without any I/O being asked for.
    pub fn send_image_with_fallback(
        &mut self,
        raster: RgbRaster,
        now_ms: u64,
        transport_alive: bool,
    ) -> (r: SendPlan)
        requires
            old(self).wf(),
            raster.pixels@.len() + 9 <= u32::MAX,
        ensures
            *final(self) == old(self).spec_after_ensure(now_ms, transport_alive),
            final(self).wf(),
            (old(self).spec_after_health_step(now_ms, transport_alive).spec_ensure_decision(now_ms)
                matches EnsureOutcome::Ready(t) ==> (r matches SendPlan::Transmit {
                transport_id,
                frame,
            } && transport_id == t && frame@ == spec_frame(
                spec_payload(Command::Image { raster }),
            ))),
            (old(self).spec_after_health_step(now_ms, transport_alive).spec_ensure_decision(now_ms)
                is Connect ==> r is ConnectFirst),
            (old(self).spec_after_health_step(now_ms, transport_alive).spec_ensure_decision(now_ms)
                is BackoffActive ==> r is NotSentBackoff),
            (old(self).spec_after_health_step(now_ms, transport_alive).spec_ensure_decision(now_ms)
                is Unavailable ==> r is NotSentFallback),
            old(self).state is Failed ==> r is NotSentFallback,
    {
        match self.ensure_connected(now_ms, transport_alive) {
            EnsureOutcome::Ready(transport_id) => {
                let cmd = Command::Image { raster };
                let frame = encode_command_framed(&cmd);
                SendPlan::Transmit { transport_id, frame }
            },
            EnsureOutcome::Connect => SendPlan::ConnectFirst,
            EnsureOutcome::BackoffActive => SendPlan::NotSentBackoff,
            EnsureOutcome::Unavailable => SendPlan::NotSentFallback,
        }
    }

    /// Reports the outcome of the write requested by `Transmit`.  Success
    /// changes nothing and answers `Ok(true)` (sent).  A reconnectable
    /// error tears the session down for a retry and answers `Ok(false)`
    /// (not sent, will retry) — not an error to the caller.  A fatal error
    /// leaves state and counters untouched and is the only variant returned
    /// as `Err`.
    pub fn record_send_result(&mut self, error: Option<IoErrorKind>) -> (r: Result<
        bool,
        IoErrorKind,
    >)
        requires
            old(self).wf(),
            old(self).total_reconnections < u32::MAX,
        ensures
            final(self).wf(),
            error is None ==> (r == Ok::<bool, IoErrorKind>(true) && *final(self) == *old(self)),
            error matches Some(kind) ==> ((kind.spec_is_reconnectable() ==> r == Ok::<
                bool,
                IoErrorKind,
            >(false) && *final(self) == old(self).spec_after_network_error(kind)) && (
            !kind.spec_is_reconnectable() ==> r == Err::<bool, IoErrorKind>(kind) && *final(self)
                == *old(self))),
    {
        match error {
            None => Ok(true),
            Some(kind) => {
                if self.handle_network_error(kind) {
                    Ok(false)
                } else {
                    Err(kind)
                }
            },
        }
    }
}

/// A session whose failure counter has reached the retry limit is `Failed`:
/// the two conditions coincide in every reachable session value.
pub proof fn lemma_exhausted_retries_mean_failed(m: HyperionConnectionManager)
    requires
        m.wf(),
        m.consecutive_failures == m.config.max_retries,
    ensures
        m.state is Failed,
{
}

/// The connect failure that reaches the retry limit deterministically
/// yields `Failed`, with the counter at the limit and no handle installed.
pub proof fn lemma_retry_exhaustion_fails(m: HyperionConnectionManager)
    requires
        m.wf(),
        m.state is Reconnecting,
        m.consecutive_failures + 1 == m.config.max_retries,
    ensures
        m.spec_after_connection_failure().state is Failed,
        m.spec_after_connection_failure().consecutive_failures == m.config.max_retries,
        m.spec_after_connection_failure().transport is None,
{
}

/// `Failed` is terminal: `ensure_connected` answers `Unavailable` and
/// attempts no connect — state, counters and the attempt stamp are left as
/// they were — until `reset_failure_state` or `force_reconnect` intervenes,
/// each of which demotes to `Disconnected` with the counter cleared.
pub proof fn lemma_failed_is_terminal(
    m: HyperionConnectionManager,
    now_ms: u64,
    transport_alive: bool,
)
    requires
        m.wf(),
        m.state is Failed,
    ensures
        m.spec_after_health_step(now_ms, transport_alive).spec_ensure_decision(now_ms)
            is Unavailable,
        m.spec_after_ensure(now_ms, transport_alive).state is Failed,
        m.spec_after_ensure(now_ms, transport_alive).consecutive_failures
            == m.consecutive_failures,
        m.spec_after_ensure(now_ms, transport_alive).total_reconnections == m.total_reconnections,
        m.spec_after_ensure(now_ms, transport_alive).last_connection_attempt
            == m.last_connection_attempt,
        m.spec_after_reset().state is Disconnected,
        m.spec_after_reset().consecutive_failures == 0,
        m.spec_after_force_reconnect().state is Disconnected,
        m.spec_after_force_reconnect().consecutive_failures == 0,
{
}

/// Every reconnectable runtime error resets the consecutive-failure counter
/// to zero and counts exactly one more detected drop, leaving the session
/// `Disconnected` with no handle.
pub proof fn lemma_reconnectable_error_resets(m: HyperionConnectionManager, kind: IoErrorKind)
    requires
        m.wf(),
        kind.spec_is_reconnectable(),
        m.total_reconnections < u32::MAX,
    ensures
        m.spec_after_network_error(kind).consecutive_failures == 0,
        m.spec_after_network_error(kind).total_reconnections == m.total_reconnections + 1,
        m.spec_after_network_error(kind).state is Disconnected,
        m.spec_after_network_error(kind).transport is None,
{
}

/// Every non-reconnectable runtime error leaves the session — state and
/// both counters — exactly as it was; `record_send_result` is what hands it
/// back to the caller as fatal.
pub proof fn lemma_fatal_error_is_inert(m: HyperionConnectionManager, kind: IoErrorKind)
    requires
        m.wf(),
        !kind.spec_is_reconnectable(),
    ensures
        m.spec_after_network_error(kind) == m,
{
}

/// After a successful connect the session reports connected; a `Failed`
/// session never does.
pub proof fn lemma_connectedness(m: HyperionConnectionManager, transport_id: u64, now_ms: u64)
    requires
        m.wf(),
    ensures
        m.spec_after_connect_success(transport_id, now_ms).spec_is_connected(),
        m.state is Failed ==> !m.spec_is_connected(),
{
}

/// A health check performed in any state other than `Connected` is a no-op,
/// and even when it demotes a dead `Connected` session it touches neither
/// failure counter.
pub proof fn lemma_health_check_touches_no_counter(
    m: HyperionConnectionManager,
    transport_alive: bool,
)
    requires
        m.wf(),
    ensures
        !(m.state is Connected) ==> m.spec_after_health_probe(transport_alive) == m,
        m.spec_after_health_probe(transport_alive).consecutive_failures
            == m.consecutive_failures,
        m.spec_after_health_probe(transport_alive).total_reconnections == m.total_reconnections,
{
}

} // verus!
