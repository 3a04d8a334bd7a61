use sentio::state::{AppState, KeyedRateLimiter};

type State = AppState<&'static str, u8, u16, u32, &'static str, i8>;

fn state() -> State {
    AppState::new("pool", 1, 2, 3)
}

#[test]
fn new_state_has_no_store_and_no_pipeline() {
    let state = state();
    assert_eq!(state.pool, "pool");
    assert_eq!((*state.publisher, *state.blob_store, *state.config), (1, 2, 3));
    assert!(state.kv.is_none());
    assert!(state.inbound_processor.is_none());
}

#[test]
fn limiters_have_their_quotas() {
    let state = state();
    let tenant = format!("{:?}", state.rate_limiter);
    let ip = format!("{:?}", state.ip_rate_limiter);
    // 600 a minute are one every 100 ms, and 599 more may come at once.
    assert!(tenant.contains("t: Nanos(100ms), tau: Nanos(59.9s)"));
    // 120 a minute are one every 500 ms, and 119 more may come at once.
    assert!(ip.contains("t: Nanos(500ms), tau: Nanos(59.5s)"));
}

/// How many requests for `key` pass before one does not.
fn passed_at_once(limiter: &KeyedRateLimiter, key: &str) -> u32 {
    let key = key.to_string();
    let mut passed = 0;
    while passed < 10_000 && limiter.check_key(&key) {
        passed += 1;
    }
    passed
}

#[test]
fn limiters_stop_each_key_by_itself() {
    let state = state();
    // While a slow test counts, a few more may pass.
    let ip = passed_at_once(&state.ip_rate_limiter, "192.0.2.1");
    assert!((120..240).contains(&ip));
    assert!(state.ip_rate_limiter.check_key(&"192.0.2.2".to_string()));
    let tenant = passed_at_once(&state.rate_limiter, "tenant");
    assert!((600..1200).contains(&tenant));
    assert!(state.rate_limiter.check_key(&"other".to_string()));
}

#[test]
fn builders_change_one_field() {
    let state = state().with_kv("kv").with_inbound_processor(-1);
    assert_eq!(state.kv, Some("kv"));
    assert_eq!(state.inbound_processor, Some(-1));
    assert_eq!(state.pool, "pool");
    assert_eq!((*state.publisher, *state.blob_store, *state.config), (1, 2, 3));
}
