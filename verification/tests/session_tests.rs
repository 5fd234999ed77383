use hyperion_session::codec::RgbRaster;
use hyperion_session::config::ConnectionConfig;
use hyperion_session::errors::IoErrorKind;
use hyperion_session::session::{
    ConnectionState, EnsureOutcome, HyperionConnectionManager, SendPlan,
};

fn test_config(max_retries: u32) -> ConnectionConfig {
    ConnectionConfig {
        address: "127.0.0.1:19400".to_string(),
        max_retries,
        initial_backoff_ms: 100,
        max_backoff_ms: 5000,
        connection_timeout_ms: 3000,
        health_check_interval_ms: 30000,
    }
}

fn small_raster() -> RgbRaster {
    RgbRaster {
        width: 2,
        height: 1,
        pixels: vec![10, 20, 30, 40, 50, 60],
    }
}

/// Drives a fresh manager into the Connected state with the given handle.
fn connected_manager(handle: u64) -> HyperionConnectionManager {
    let mut m = HyperionConnectionManager::new(test_config(3), 0);
    assert_eq!(m.ensure_connected(0, true), EnsureOutcome::Connect);
    m.connect_succeeded(handle, 1);
    m
}

#[test]
fn default_config_values() {
    let cfg = ConnectionConfig::default();
    assert_eq!(cfg.address, "127.0.0.1:19400");
    assert_eq!(cfg.max_retries, 5);
    assert_eq!(cfg.initial_backoff_ms, 100);
    assert_eq!(cfg.max_backoff_ms, 5000);
    assert_eq!(cfg.connection_timeout_ms, 3000);
    assert_eq!(cfg.health_check_interval_ms, 30000);
}

#[test]
fn backoff_formula_values() {
    let mut m = HyperionConnectionManager::new(test_config(3), 0);
    // min(100 * 2^max(f-1, 0), 5000) for f = 0, 1, 2, ...
    let expected: [(u32, u64); 9] = [
        (0, 100),
        (1, 100),
        (2, 200),
        (3, 400),
        (4, 800),
        (5, 1600),
        (6, 3200),
        (7, 5000),
        (8, 5000),
    ];
    for (f, want) in expected {
        m.consecutive_failures = f;
        assert_eq!(m.calculate_backoff_duration(), want, "failures = {}", f);
    }
    // The cap also holds far past the doubling range.
    m.consecutive_failures = 80;
    assert_eq!(m.calculate_backoff_duration(), 5000);
    // A zero base never waits.
    m.config.initial_backoff_ms = 0;
    m.consecutive_failures = 80;
    assert_eq!(m.calculate_backoff_duration(), 0);
}

#[test]
fn scenario_three_failures_reach_failed() {
    let mut m = HyperionConnectionManager::new(test_config(3), 0);

    assert_eq!(m.ensure_connected(0, true), EnsureOutcome::Connect);
    m.handle_connection_failure();
    assert_eq!(m.consecutive_failures, 1);
    assert_eq!(m.calculate_backoff_duration(), 100);

    assert_eq!(m.ensure_connected(50, true), EnsureOutcome::BackoffActive);
    assert_eq!(m.ensure_connected(100, true), EnsureOutcome::Connect);
    m.handle_connection_failure();
    assert_eq!(m.consecutive_failures, 2);
    assert_eq!(m.calculate_backoff_duration(), 200);

    assert_eq!(m.ensure_connected(300, true), EnsureOutcome::Connect);
    m.handle_connection_failure();
    assert_eq!(m.consecutive_failures, 3);
    assert_eq!(m.calculate_backoff_duration(), 400);

    assert_eq!(m.state, ConnectionState::Failed);
    assert!(m.is_failed());
    assert!(!m.is_connected());
}

#[test]
fn failed_is_terminal_until_reset() {
    let mut m = HyperionConnectionManager::new(test_config(1), 0);
    assert_eq!(m.ensure_connected(0, true), EnsureOutcome::Connect);
    m.handle_connection_failure();
    assert_eq!(m.state, ConnectionState::Failed);

    let stamp = m.last_connection_attempt;
    for now in [1u64, 1000, 1_000_000] {
        assert_eq!(m.ensure_connected(now, true), EnsureOutcome::Unavailable);
        assert_eq!(m.state, ConnectionState::Failed);
        assert_eq!(m.last_connection_attempt, stamp, "no attempt was started");
    }

    m.reset_failure_state();
    assert_eq!(m.state, ConnectionState::Disconnected);
    assert_eq!(m.consecutive_failures, 0);
    assert_eq!(m.ensure_connected(1_000_001, true), EnsureOutcome::Connect);
}

#[test]
fn scenario_write_fails_with_connection_reset() {
    let mut m = connected_manager(5);
    assert!(m.is_connected());

    let r = m.record_send_result(Some(IoErrorKind::ConnectionReset));
    assert_eq!(r, Ok(false));
    assert_eq!(m.state, ConnectionState::Disconnected);
    assert_eq!(m.total_reconnections, 1);
    assert_eq!(m.consecutive_failures, 0);
    assert_eq!(m.transport, None);

    // The next ensure performs a fresh connect (and so a fresh handshake).
    assert_eq!(m.ensure_connected(2, true), EnsureOutcome::Connect);
}

#[test]
fn reconnectable_error_counts_one_drop_each() {
    let mut m = connected_manager(5);
    for (i, kind) in [
        IoErrorKind::BrokenPipe,
        IoErrorKind::ConnectionAborted,
        IoErrorKind::ConnectionReset,
        IoErrorKind::UnexpectedEof,
    ]
    .into_iter()
    .enumerate()
    {
        assert!(m.handle_network_error(kind));
        assert_eq!(m.total_reconnections, i as u32 + 1);
        assert_eq!(m.consecutive_failures, 0);
        assert_eq!(m.state, ConnectionState::Disconnected);
        // Re-establish for the next round.
        assert_eq!(m.ensure_connected(0, true), EnsureOutcome::Connect);
        m.connect_succeeded(6, 1);
    }
}

#[test]
fn fatal_error_changes_nothing_and_is_returned() {
    let mut m = connected_manager(5);
    let before_state = m.state;
    let before_failures = m.consecutive_failures;
    let before_reconnections = m.total_reconnections;

    assert!(!m.handle_network_error(IoErrorKind::Other));
    assert_eq!(m.state, before_state);
    assert_eq!(m.consecutive_failures, before_failures);
    assert_eq!(m.total_reconnections, before_reconnections);
    assert!(m.is_connected());

    let r = m.record_send_result(Some(IoErrorKind::Other));
    assert_eq!(r, Err(IoErrorKind::Other));
    assert!(m.is_connected());
}

#[test]
fn scenario_reset_failure_state_allows_immediate_connect() {
    let mut m = HyperionConnectionManager::new(test_config(1), 0);
    assert_eq!(m.ensure_connected(0, true), EnsureOutcome::Connect);
    m.handle_connection_failure();
    assert_eq!(m.state, ConnectionState::Failed);

    m.reset_failure_state();
    assert_eq!(m.state, ConnectionState::Disconnected);
    assert_eq!(m.consecutive_failures, 0);
    // Immediately, with no pending backoff.
    assert_eq!(m.ensure_connected(1, true), EnsureOutcome::Connect);
}

#[test]
fn reset_failure_state_is_noop_outside_failed() {
    let mut m = connected_manager(9);
    m.reset_failure_state();
    assert_eq!(m.state, ConnectionState::Connected);
    assert_eq!(m.transport, Some(9));
}

#[test]
fn force_reconnect_always_tears_down() {
    let mut m = connected_manager(5);
    m.force_reconnect();
    assert_eq!(m.state, ConnectionState::Disconnected);
    assert_eq!(m.transport, None);
    assert_eq!(m.consecutive_failures, 0);

    // Also from Failed, without needing reset_failure_state.
    let mut f = HyperionConnectionManager::new(test_config(1), 0);
    assert_eq!(f.ensure_connected(0, true), EnsureOutcome::Connect);
    f.handle_connection_failure();
    assert_eq!(f.state, ConnectionState::Failed);
    f.force_reconnect();
    assert_eq!(f.state, ConnectionState::Disconnected);
    assert_eq!(f.ensure_connected(1, true), EnsureOutcome::Connect);
}

#[test]
fn scenario_send_while_failed_is_fallback_without_io() {
    let mut m = HyperionConnectionManager::new(test_config(1), 0);
    assert_eq!(m.ensure_connected(0, true), EnsureOutcome::Connect);
    m.handle_connection_failure();
    assert_eq!(m.state, ConnectionState::Failed);
    let stamp = m.last_connection_attempt;

    let plan = m.send_image_with_fallback(small_raster(), 100, true);
    assert!(matches!(plan, SendPlan::NotSentFallback));
    assert_eq!(m.state, ConnectionState::Failed);
    assert_eq!(m.last_connection_attempt, stamp, "no connect was attempted");
    assert_eq!(m.consecutive_failures, 1);
}

#[test]
fn send_transmits_when_connected() {
    let mut m = connected_manager(42);
    let plan = m.send_image_with_fallback(small_raster(), 2, true);
    match plan {
        SendPlan::Transmit {
            transport_id,
            frame,
        } => {
            assert_eq!(transport_id, 42);
            // 4-byte length prefix (15) + tag + width + height + 6 pixel bytes.
            let mut want = vec![0, 0, 0, 15, 3, 0, 0, 0, 2, 0, 0, 0, 1];
            want.extend_from_slice(&[10, 20, 30, 40, 50, 60]);
            assert_eq!(frame, want);
        }
        other => panic!("expected Transmit, got {:?}", other),
    }
    // A clean write leaves everything unchanged.
    assert_eq!(m.record_send_result(None), Ok(true));
    assert!(m.is_connected());
}

#[test]
fn send_during_backoff_and_before_connect() {
    let mut m = HyperionConnectionManager::new(test_config(3), 0);
    let plan = m.send_image_with_fallback(small_raster(), 0, true);
    assert!(matches!(plan, SendPlan::ConnectFirst));
    m.handle_connection_failure();
    let plan2 = m.send_image_with_fallback(small_raster(), 10, true);
    assert!(matches!(plan2, SendPlan::NotSentBackoff));
}

#[test]
fn health_check_is_noop_unless_connected() {
    // Disconnected.
    let mut m = HyperionConnectionManager::new(test_config(3), 0);
    m.perform_health_check(false);
    assert_eq!(m.state, ConnectionState::Disconnected);
    assert_eq!(m.consecutive_failures, 0);
    assert_eq!(m.total_reconnections, 0);

    // Reconnecting.
    assert_eq!(m.ensure_connected(0, true), EnsureOutcome::Connect);
    m.handle_connection_failure();
    m.perform_health_check(false);
    assert_eq!(m.state, ConnectionState::Reconnecting);
    assert_eq!(m.consecutive_failures, 1);

    // Failed.
    let mut f = HyperionConnectionManager::new(test_config(1), 0);
    assert_eq!(f.ensure_connected(0, true), EnsureOutcome::Connect);
    f.handle_connection_failure();
    f.perform_health_check(false);
    assert_eq!(f.state, ConnectionState::Failed);
    assert_eq!(f.consecutive_failures, 1);
}

#[test]
fn health_check_demotes_dead_connected_transport() {
    let mut m = connected_manager(5);
    m.perform_health_check(true);
    assert!(m.is_connected(), "live transport is kept");

    m.perform_health_check(false);
    assert_eq!(m.state, ConnectionState::Disconnected);
    assert_eq!(m.transport, None);
    // Distinct accounting: neither counter moves.
    assert_eq!(m.consecutive_failures, 0);
    assert_eq!(m.total_reconnections, 0);
}

#[test]
fn ensure_runs_health_check_when_interval_elapsed() {
    let mut m = connected_manager(5);
    // Interval not elapsed: the dead probe result is not even consulted.
    assert_eq!(m.ensure_connected(10, false), EnsureOutcome::Ready(5));
    assert!(m.is_connected());

    // Interval elapsed: the dead transport is dropped and a reconnect begins.
    assert_eq!(m.ensure_connected(30_000, false), EnsureOutcome::Connect);
    assert_eq!(m.transport, None);
    assert_eq!(m.total_reconnections, 0);
    assert_eq!(m.consecutive_failures, 0);
}

#[test]
fn ensure_returns_ready_with_installed_handle() {
    let mut m = connected_manager(1234);
    assert_eq!(m.ensure_connected(5, true), EnsureOutcome::Ready(1234));
    assert_eq!(m.transport, Some(1234));
}

#[test]
fn connect_success_after_previous_drops_counts_stay() {
    let mut m = connected_manager(5);
    assert!(m.handle_network_error(IoErrorKind::BrokenPipe));
    assert_eq!(m.ensure_connected(2, true), EnsureOutcome::Connect);
    m.connect_succeeded(6, 3);
    assert!(m.is_connected());
    assert_eq!(m.total_reconnections, 1, "drop count is monotonic");
    assert_eq!(m.consecutive_failures, 0);
    assert_eq!(m.connection_start_time, Some(3));
}

#[test]
fn stats_snapshot_values() {
    let mut m = connected_manager(5);
    // Connected at now_ms = 1 (attempt started at 0).
    let stats = m.get_stats(4001);
    assert_eq!(stats.state, ConnectionState::Connected);
    assert_eq!(stats.consecutive_failures, 0);
    assert_eq!(stats.total_reconnections, 0);
    assert_eq!(stats.uptime_seconds, 4); // (4001 - 1) / 1000
    assert_eq!(stats.last_attempt_ago_ms, 4001);

    let fresh = HyperionConnectionManager::new(test_config(3), 0);
    let s2 = fresh.get_stats(500);
    assert_eq!(s2.state, ConnectionState::Disconnected);
    assert_eq!(s2.uptime_seconds, 0);
    assert_eq!(s2.last_attempt_ago_ms, 0);
}

#[test]
fn state_labels() {
    assert_eq!(ConnectionState::Connected.label(), "Connected");
    assert_eq!(ConnectionState::Disconnected.label(), "Disconnected");
    assert_eq!(ConnectionState::Reconnecting.label(), "Reconnecting");
    assert_eq!(ConnectionState::Failed.label(), "Failed");
}
