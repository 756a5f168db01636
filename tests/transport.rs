use mcp_sse::config::{calculate_retry_delay, SseConfig};
use mcp_sse::error::Error;
use mcp_sse::events::{classify_event, EventKind};
use mcp_sse::transport::{AttemptOutcome, ConnectionState, DriverStep, SseTransport};

fn config(max_retries: Option<usize>) -> SseConfig {
    SseConfig {
        initial_retry_interval: 100,
        max_retry_interval: 1000,
        connection_timeout: 500,
        exponential_backoff: true,
        max_retries,
        shutdown_timeout: 200,
    }
}

#[test]
fn endpoint_discovery_connects() {
    let mut t = SseTransport::new("http://h/sse".to_string());
    assert_eq!(t.get_state(), ConnectionState::Disconnected);
    t.begin_connect().unwrap();
    assert_eq!(t.get_state(), ConnectionState::Connecting);
    assert_eq!(classify_event("endpoint"), EventKind::Endpoint);
    let endpoint = t.endpoint_event("/rpc?sessionId=abc").unwrap();
    assert_eq!(endpoint, "http://h/rpc?sessionId=abc");
    t.finish_connect(true).unwrap();
    assert_eq!(t.get_state(), ConnectionState::Connected);
    assert_eq!(t.get_post_endpoint().unwrap(), "http://h/rpc?sessionId=abc");
    assert_eq!(t.notification_target().unwrap(), "http://h/rpc?sessionId=abc");
}

#[test]
fn endpoint_that_does_not_resolve_is_an_error() {
    let mut t = SseTransport::new("not a url".to_string());
    t.begin_connect().unwrap();
    assert!(matches!(t.endpoint_event("/rpc"), Err(Error::System(_))));
    assert!(t.get_post_endpoint().is_err());
}

#[test]
fn absolute_endpoint_replaces_base() {
    let mut t = SseTransport::new("http://h/sse".to_string());
    assert_eq!(t.endpoint_event("https://other/post").unwrap(), "https://other/post");
}

#[test]
fn connect_timeout_rolls_back() {
    let mut t = SseTransport::new("http://h/sse".to_string());
    t.begin_connect().unwrap();
    assert!(matches!(t.finish_connect(false), Err(Error::Timeout(_))));
    assert_eq!(t.get_state(), ConnectionState::Disconnected);
    let mut u = SseTransport::new("http://h/sse".to_string());
    u.begin_connect().unwrap();
    assert!(matches!(u.finish_connect(true), Err(Error::Timeout(_))));
}

#[test]
fn connect_only_from_disconnected_or_closed() {
    let mut t = SseTransport::new("http://h/sse".to_string());
    t.begin_connect().unwrap();
    assert!(matches!(t.begin_connect(), Err(Error::System(_))));
    assert_eq!(t.get_state(), ConnectionState::Connecting);
    t.mark_closed();
    assert!(t.begin_connect().is_ok());
}

#[test]
fn disconnect_is_idempotent() {
    let mut t = SseTransport::new("http://h/sse".to_string());
    assert!(t.begin_disconnect());
    assert_eq!(t.get_state(), ConnectionState::Closing);
    assert!(!t.begin_disconnect());
    t.mark_closed();
    assert!(!t.begin_disconnect());
    assert_eq!(t.get_state(), ConnectionState::Closed);
}

#[test]
fn notification_needs_connected_state() {
    let t = SseTransport::new("http://h/sse".to_string());
    assert!(matches!(t.notification_target(), Err(Error::System(_))));
    assert!(matches!(t.request_target(), Err(Error::System(m)) if m.contains("not connected")));
}

#[test]
fn retry_ceiling_closes_transport() {
    let mut t = SseTransport::with_config("http://h/sse".to_string(), config(Some(2)));
    t.begin_connect().unwrap();
    t.endpoint_event("/rpc?sessionId=abc").unwrap();
    t.finish_connect(true).unwrap();
    assert_eq!(t.request_target().unwrap(), "http://h/rpc?sessionId=abc");
    // the stream ends after a working session
    assert_eq!(t.attempt_ended(AttemptOutcome::Ended, false), DriverStep::Attempt);
    assert_eq!(t.next_attempt(false), DriverStep::Attempt);
    t.attempt_started();
    assert_eq!(t.attempt_ended(AttemptOutcome::Failed, false), DriverStep::Sleep(200));
    assert_eq!(t.next_attempt(false), DriverStep::Attempt);
    t.attempt_started();
    // the second failure reaches the ceiling: the driver stops without waiting
    assert_eq!(t.attempt_ended(AttemptOutcome::Failed, false), DriverStep::Stop);
    assert_eq!(t.retry_count(), 2);
    assert_eq!(t.next_attempt(false), DriverStep::Stop);
    t.mark_closed();
    assert_eq!(t.get_state(), ConnectionState::Closed);
    assert!(matches!(t.request_target(), Err(Error::System(m)) if m.contains("not connected")));
}

#[test]
fn session_end_resets_retries() {
    let mut t = SseTransport::with_config("http://h/sse".to_string(), config(None));
    t.attempt_ended(AttemptOutcome::Failed, false);
    t.attempt_ended(AttemptOutcome::Failed, false);
    assert_eq!(t.retry_count(), 2);
    assert_eq!(t.attempt_ended(AttemptOutcome::Ended, false), DriverStep::Attempt);
    assert_eq!(t.retry_count(), 0);
}

#[test]
fn cancellation_stops_driver() {
    let mut t = SseTransport::with_config("http://h/sse".to_string(), config(None));
    assert_eq!(t.next_attempt(true), DriverStep::Stop);
    assert_eq!(t.attempt_ended(AttemptOutcome::Failed, true), DriverStep::Stop);
    assert_eq!(t.retry_count(), 0);
}

#[test]
fn reconnect_clears_endpoint() {
    let mut t = SseTransport::new("http://h/sse".to_string());
    t.begin_connect().unwrap();
    t.endpoint_event("/rpc").unwrap();
    t.finish_connect(true).unwrap();
    t.attempt_started();
    assert!(matches!(t.request_target(), Err(Error::System(_))));
}

#[test]
fn backoff_doubles_up_to_maximum() {
    let c = config(None);
    let delays: Vec<u64> = (0..8).map(|n| calculate_retry_delay(&c, n)).collect();
    assert_eq!(delays, vec![100, 200, 400, 800, 1000, 1000, 1000, 1000]);
    for n in 0..40 {
        assert!(calculate_retry_delay(&c, n) <= calculate_retry_delay(&c, n + 1));
    }
}

#[test]
fn backoff_exponent_is_capped_at_ten() {
    let mut c = config(None);
    c.initial_retry_interval = 1;
    c.max_retry_interval = u64::MAX;
    assert_eq!(calculate_retry_delay(&c, 10), 1024);
    assert_eq!(calculate_retry_delay(&c, 11), 1024);
    assert_eq!(calculate_retry_delay(&c, usize::MAX), 1024);
}

#[test]
fn backoff_saturates_without_overflow() {
    let mut c = config(None);
    c.initial_retry_interval = u64::MAX;
    c.max_retry_interval = u64::MAX;
    assert_eq!(calculate_retry_delay(&c, 5), u64::MAX);
}

#[test]
fn constant_backoff() {
    let mut c = config(None);
    c.exponential_backoff = false;
    assert_eq!(calculate_retry_delay(&c, 0), 100);
    assert_eq!(calculate_retry_delay(&c, 7), 100);
}

#[test]
fn default_config_values() {
    let c = SseConfig::default();
    assert_eq!(c.initial_retry_interval, 1000);
    assert_eq!(c.max_retry_interval, 30000);
    assert_eq!(c.connection_timeout, 10000);
    assert!(c.exponential_backoff);
    assert_eq!(c.max_retries, None);
    assert_eq!(c.shutdown_timeout, 5000);
    assert_eq!(calculate_retry_delay(&c, 3), 8000);
    assert_eq!(calculate_retry_delay(&c, 5), 30000);
}

#[test]
fn recorded_endpoint_becomes_post_target() {
    let mut t = SseTransport::new("http://h/sse".to_string());
    assert_eq!(t.record_endpoint(Some("http://h/rpc".to_string())).unwrap(), "http://h/rpc");
    assert_eq!(t.get_post_endpoint().unwrap(), "http://h/rpc");
    assert!(matches!(t.record_endpoint(None), Err(Error::System(_))));
    assert_eq!(t.get_post_endpoint().unwrap(), "http://h/rpc");
}

#[test]
fn reconnect_forgets_previous_endpoint() {
    let mut t = SseTransport::new("http://h/sse".to_string());
    t.begin_connect().unwrap();
    t.endpoint_event("/rpc?sessionId=old").unwrap();
    t.finish_connect(true).unwrap();
    assert!(t.begin_disconnect());
    t.mark_closed();
    t.begin_connect().unwrap();
    assert!(t.get_post_endpoint().is_err());
    assert!(matches!(t.finish_connect(true), Err(Error::Timeout(_))));
}

#[test]
fn failures_below_ceiling_wait() {
    let mut t = SseTransport::with_config("http://h/sse".to_string(), config(Some(3)));
    assert_eq!(t.attempt_ended(AttemptOutcome::Failed, false), DriverStep::Sleep(200));
    assert_eq!(t.attempt_ended(AttemptOutcome::Failed, false), DriverStep::Sleep(400));
    assert_eq!(t.attempt_ended(AttemptOutcome::Failed, false), DriverStep::Stop);
}
