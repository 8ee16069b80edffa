use hermes_api::rate_limit::{take_token, BucketState, RateLimit};
use hermes_api::security::{
    exceeded_headers, extract_api_key, parse_api_keys, permit_headers, Admission, AuthState,
    TokenBuckets,
};

const SECOND: u64 = 1_000_000_000;
const TOKEN: u128 = 1_000_000_000_000;

#[test]
fn keys_are_read_as_org_and_secret() {
    let keys = parse_api_keys("acme:k1, ,broken, beta : k2 ,:x,y:");
    assert_eq!(keys.len(), 2);
    assert_eq!(keys[0].secret, "k1");
    assert_eq!(keys[0].org_id, "acme");
    assert_eq!(keys[0].api_key_id, "key-01");
    assert_eq!(keys[1].secret, "k2");
    assert_eq!(keys[1].org_id, "beta");
    assert_eq!(keys[1].api_key_id, "key-04");
}

#[test]
fn secret_may_hold_colons() {
    let keys = parse_api_keys("acme:a:b");
    assert_eq!(keys[0].org_id, "acme");
    assert_eq!(keys[0].secret, "a:b");
}

#[test]
fn key_ids_count_pieces_with_two_digits() {
    let raw = (1..=12).map(|i| format!("o{}:s{}", i, i)).collect::<Vec<_>>().join(",");
    let keys = parse_api_keys(&raw);
    assert_eq!(keys.len(), 12);
    assert_eq!(keys[8].api_key_id, "key-09");
    assert_eq!(keys[9].api_key_id, "key-10");
    assert_eq!(keys[11].api_key_id, "key-12");
}

#[test]
fn empty_key_list_falls_back_to_demo_key() {
    for raw in ["", " , ", "nocolon"] {
        let keys = parse_api_keys(raw);
        assert_eq!(keys.len(), 1);
        assert_eq!(keys[0].secret, "demo-key");
        assert_eq!(keys[0].org_id, "demo-org");
        assert_eq!(keys[0].api_key_id, "key-01");
    }
}

#[test]
fn key_is_taken_from_bearer_or_key_header() {
    assert_eq!(extract_api_key(Some("Bearer abc"), None).as_deref(), Some("abc"));
    assert_eq!(extract_api_key(Some("bEaReR   abc  "), Some("other")).as_deref(), Some("abc"));
    assert_eq!(extract_api_key(Some("Basic abc"), Some(" k ")).as_deref(), Some("k"));
    assert_eq!(extract_api_key(None, Some("k")).as_deref(), Some("k"));
    assert_eq!(extract_api_key(None, Some("   ")), None);
    assert_eq!(extract_api_key(None, None), None);
    assert_eq!(extract_api_key(Some("Bearer"), None), None);
    assert_eq!(extract_api_key(Some("Bearer "), None), None);
    assert_eq!(extract_api_key(Some("bearer  "), Some(" k ")).as_deref(), Some("k"));
    assert_eq!(extract_api_key(Some("Bearer \t "), Some("  ")), None);
}

#[test]
fn known_key_authenticates_and_last_duplicate_wins() {
    let state = AuthState::new("acme:k1,beta:k1,gamma:k3", RateLimit::new(5000, 10000));
    let ctx = state.authenticate("k1").expect("known");
    assert_eq!(ctx.org_id, "beta");
    assert_eq!(ctx.api_key_id, "key-02");
    assert!(state.authenticate("nope").is_none());
    assert!(state.authenticate("").is_none());
}

#[test]
fn missing_and_unknown_keys_are_turned_away() {
    let mut state = AuthState::new("acme:k1", RateLimit::new(5000, 10000));
    assert!(matches!(state.check_request(None, None, 0), Admission::MissingKey));
    assert!(matches!(state.check_request(Some("Bearer zzz"), None, 0), Admission::InvalidKey));
    assert!(matches!(state.check_request(Some("Bearer "), None, 0), Admission::MissingKey));
    assert!(matches!(state.check_request(Some("Bearer "), Some("zzz"), 0), Admission::InvalidKey));
    match state.check_request(None, Some("k1"), 0) {
        Admission::Admitted { context, permit } => {
            assert_eq!(context.org_id, "acme");
            let h = permit_headers(&permit);
            assert_eq!(h.limit, 10);
            assert_eq!(h.remaining, 9);
            assert_eq!(h.reset, 1);
            assert_eq!(h.retry_after, None);
        }
        other => panic!("unexpected: {:?}", other),
    }
}

#[test]
fn rate_limit_exhaustion() {
    let mut state = AuthState::new("acme:k1", RateLimit::new(1000, 2000));
    let start = 5 * SECOND;
    match state.check_request(Some("Bearer k1"), None, start) {
        Admission::Admitted { permit, .. } => {
            let h = permit_headers(&permit);
            assert_eq!(h.limit, 2);
            assert_eq!(h.remaining, 1);
        }
        other => panic!("unexpected: {:?}", other),
    }
    match state.check_request(Some("Bearer k1"), None, start + 40_000_000) {
        Admission::Admitted { permit, .. } => {
            let h = permit_headers(&permit);
            assert_eq!(h.remaining, 0);
            assert_eq!(h.reset, 2);
        }
        other => panic!("unexpected: {:?}", other),
    }
    match state.check_request(Some("Bearer k1"), None, start + 100_000_000) {
        Admission::Limited { exceeded, context } => {
            assert_eq!(context.org_id, "acme");
            let h = exceeded_headers(&exceeded);
            assert_eq!(h.retry_after, Some(1));
            assert_eq!(h.remaining, 0);
            assert_eq!(h.limit, 2);
            assert_eq!(h.reset, 2);
        }
        other => panic!("unexpected: {:?}", other),
    }
}

#[test]
fn burst_admits_exactly_the_capacity() {
    let limit = RateLimit::new(5000, 10000);
    let mut buckets = TokenBuckets::new(limit);
    let mut admitted = 0;
    for i in 0..10u64 {
        if buckets.consume("acme", 1_000 + i * 1_000_000).is_ok() {
            admitted += 1;
        }
    }
    assert_eq!(admitted, 10);
    let rejected = buckets.consume("acme", 1_000 + 150_000_000).expect_err("eleventh");
    assert_eq!(rejected.retry_after(), 1);
    assert_eq!(rejected.remaining(), 0);
}

#[test]
fn tokens_flow_back_with_time() {
    let limit = RateLimit::new(1000, 2000);
    let mut buckets = TokenBuckets::new(limit);
    assert!(buckets.consume("acme", 0).is_ok());
    assert!(buckets.consume("acme", 0).is_ok());
    assert!(buckets.consume("acme", SECOND / 2).is_err());
    let permit = buckets.consume("acme", SECOND).expect("one token is back");
    assert_eq!(permit.remaining(), 0);
    assert_eq!(permit.tokens_pico, 0);
    let permit = buckets.consume("acme", 100 * SECOND).expect("full again");
    assert_eq!(permit.tokens_pico, TOKEN);
    assert_eq!(permit.remaining(), 1);
    assert_eq!(permit.reset(), 1);
}

#[test]
fn buckets_are_kept_apart_by_organization() {
    let mut buckets = TokenBuckets::new(RateLimit::new(1000, 1000));
    assert!(buckets.consume("a", 0).is_ok());
    assert!(buckets.consume("a", 0).is_err());
    assert!(buckets.consume("b", 0).is_ok());
    assert!(buckets.consume("b", 1).is_err());
}

#[test]
fn tokens_never_leave_the_range() {
    let limit = RateLimit::new(2500, 3000);
    let cap = 3 * TOKEN;
    let mut state = limit.full_bucket(0);
    let times = [0u64, 1, 2, 3, SECOND / 3, SECOND, SECOND, 10, u64::MAX / 2, u64::MAX, 7, u64::MAX];
    for now in times {
        let _ = take_token(&limit, &mut state, now);
        assert!(state.tokens_pico <= cap);
    }
    let mut low = BucketState { tokens_pico: 0, last_refill_ns: 0 };
    let rejected = take_token(&limit, &mut low, 0).expect_err("empty");
    assert_eq!(rejected.tokens_pico, 0);
    assert_eq!(rejected.retry_after(), 1);
    assert_eq!(rejected.reset(), 2);
}

#[test]
fn slow_rates_wait_longer() {
    let limit = RateLimit::new(500, 1000);
    let mut state = limit.full_bucket(0);
    assert!(take_token(&limit, &mut state, 0).is_ok());
    let rejected = take_token(&limit, &mut state, 0).expect_err("empty");
    assert_eq!(rejected.retry_after(), 2);
    let rejected = take_token(&limit, &mut state, 3 * SECOND / 2).expect_err("three quarters");
    assert_eq!(rejected.tokens_pico, 750_000_000_000);
    assert_eq!(rejected.retry_after(), 1);
}

#[test]
fn unsound_limits_fall_back_to_defaults() {
    let limit = RateLimit::new(0, 999);
    assert_eq!(limit.rate_milli, 5000);
    assert_eq!(limit.capacity_milli, 10000);
    let kept = RateLimit::new(1, 1000);
    assert_eq!(kept.rate_milli, 1);
    assert_eq!(kept.capacity_milli, 1000);
}

#[test]
fn rejections_carry_status_and_code() {
    let mut state = AuthState::new("acme:k1", RateLimit::new(1000, 1000));
    let missing = state.check_request(None, None, 0).rejection().expect("rejected");
    assert_eq!((missing.status, missing.code), (401, "missing_api_key"));
    assert_eq!(missing.note, "Provide X-Hermes-Key or Bearer token");
    let invalid = state.check_request(None, Some("zz"), 0).rejection().expect("rejected");
    assert_eq!((invalid.status, invalid.code, invalid.note), (401, "invalid_api_key", "Key not recognized"));
    assert!(state.check_request(None, Some("k1"), 0).rejection().is_none());
    let limited = state.check_request(None, Some("k1"), 0).rejection().expect("rejected");
    assert_eq!((limited.status, limited.code, limited.note), (429, "rate_limited", "Too many requests"));
}
