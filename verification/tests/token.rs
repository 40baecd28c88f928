use datahub_client::{DataHubApi, DataHubConfig, GrantKind, TokenDecision};

fn oauth_config() -> DataHubConfig {
    DataHubConfig {
        client_id: "client".to_string(),
        client_secret: "SECRET-REDACTED".to_string(),
        auth_path: "https://auth.example/authorize".to_string(),
        token_path: "https://auth.example/token".to_string(),
        project_name: "demo".to_string(),
    }
}

/// A static token with no expiry is always reported expired by the
/// conservative policy, yet every call returns the same token and no
/// OAuth2 exchange is ever decided.
#[test]
fn static_token_never_refreshes() {
    let mut api = DataHubApi::init(None);
    api.set_token_value("testtoken");
    assert!(api.has_token_expired(0));
    assert!(api.has_token_expired(u64::MAX));
    for now in [0u64, 1, 1_000_000] {
        match api.token_decision(now) {
            TokenDecision::UseStatic(t) => assert_eq!(t, "testtoken"),
            _ => panic!("expected the static token"),
        }
    }
    assert_eq!(api.base_url, "http://localhost:8081");
}

/// Without OAuth2 configuration and without a token, the decision is a
/// configuration failure, not a refresh.
#[test]
fn no_config_and_no_token_fails() {
    let api = DataHubApi::init(None);
    assert!(matches!(api.token_decision(42), TokenDecision::FailConfig));
}

/// A configured client with no credential exchanges client credentials;
/// after a successful exchange the token is served from the cache until
/// it expires, and the next refresh prefers the refresh token.
#[test]
fn exchange_then_cache_then_refresh_token() {
    let mut api = DataHubApi::init(Some(oauth_config()));
    assert_eq!(api.base_url, "https://api-demo.intellistream.ai/timeseries/data");
    assert!(matches!(
        api.token_decision(100),
        TokenDecision::Exchange(GrantKind::ClientCredentials)
    ));

    api.apply_exchange_success("tok1".to_string(), 3600, Some("refresh1".to_string()), 100);
    match api.token_decision(200) {
        TokenDecision::UseCached(t) => assert_eq!(t, "tok1"),
        _ => panic!("expected the cached token"),
    }
    // Expired strictly after the expiry second.
    assert!(!api.has_token_expired(3700));
    assert!(api.has_token_expired(3701));
    match api.token_decision(5000) {
        TokenDecision::Exchange(GrantKind::RefreshToken(rt)) => assert_eq!(rt, "refresh1"),
        _ => panic!("expected a refresh-token exchange"),
    }
}

/// Three callers race on an expired credential; the write lock
/// serializes them. The first exchanges, the others re-check, find the
/// installed credential, and reuse it: one exchange in total, the same
/// token for everyone.
#[test]
fn single_exchange_for_concurrent_callers() {
    let mut api = DataHubApi::init(Some(oauth_config()));
    let now: u64 = 50;
    let mut exchanges = 0;
    let mut tokens: Vec<String> = Vec::new();
    for _caller in 0..3 {
        match api.token_decision(now) {
            TokenDecision::UseCached(t) => tokens.push(t),
            TokenDecision::Exchange(_) => {
                exchanges += 1;
                api.apply_exchange_success("fresh".to_string(), 600, None, now);
                match api.token_decision(now) {
                    TokenDecision::UseCached(t) => tokens.push(t),
                    _ => panic!("the freshly installed token must be valid"),
                }
            }
            _ => panic!("unexpected decision"),
        }
    }
    assert_eq!(exchanges, 1);
    assert_eq!(tokens, vec!["fresh", "fresh", "fresh"]);
}
