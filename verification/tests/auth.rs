use axum::http::{HeaderMap, HeaderValue};
use sentio::auth::{
    authenticate_header, bootstrap_key_hash, bootstrap_key_status, constant_time_eq, on_api_key,
    on_oauth_token, start_authentication, token_equals_configured, ApiKeyRecord, AuthContext,
    AuthStep, BootstrapKeyStatus, OAuthTokenRecord, TenantId, Timestamp, INGEST_TOKEN_ENV,
};
use sentio::errors::{ApiError, SentioError};
use sentio::hash::{digest_text, key_hash};

// SHA-256 of "abc", from FIPS 180-2.
const ABC_HASH: &str = "ba7816bf8f01cfea414140de5dae2223b00361a396177a9cb410ff61f20015ad";

fn texts(values: &[&str]) -> Vec<String> {
    values.iter().map(|v| v.to_string()).collect()
}

fn context(scopes: &[&str]) -> AuthContext {
    AuthContext {
        tenant_id: TenantId(7),
        scopes: texts(scopes),
        shared_ingest: false,
    }
}

fn moment(secs: i64, nanos: u32) -> Timestamp {
    Timestamp { secs, nanos }
}

fn api_key() -> ApiKeyRecord {
    ApiKeyRecord {
        tenant_id: TenantId(9),
        scopes: texts(&["messages:send"]),
        key_prefix: "sk_1".to_string(),
    }
}

fn oauth_token(revoked_at: Option<Timestamp>, expires_at: Timestamp) -> OAuthTokenRecord {
    OAuthTokenRecord {
        tenant_id: TenantId(11),
        scopes: texts(&["messages:read"]),
        revoked_at,
        expires_at,
    }
}

fn auth_error(step: AuthStep) -> String {
    match step {
        AuthStep::Done(Err(ApiError::Auth(msg))) => msg,
        other => panic!("expected an auth error, got {other:?}"),
    }
}

#[test]
fn ingest_token_unset_or_empty_never_matches() {
    assert!(!token_equals_configured("anything", None));
    assert!(!token_equals_configured("anything", Some("")));
}

#[test]
fn ingest_token_matches_only_exact_configured_value() {
    const TOKEN: &str = "ingest-test-token";
    assert!(token_equals_configured(TOKEN, Some(TOKEN)));
    assert!(!token_equals_configured(TOKEN, Some("other-token")));
    assert!(!token_equals_configured("ingest-test-toke", Some(TOKEN)));
}

#[test]
fn empty_token_does_not_match_empty_configuration() {
    assert!(!token_equals_configured("", Some("")));
}

#[test]
fn constant_time_eq_compares_bytes() {
    assert!(constant_time_eq(b"", b""));
    assert!(constant_time_eq(b"abc", b"abc"));
    assert!(!constant_time_eq(b"abc", b"abd"));
    assert!(!constant_time_eq(b"abc", b"Abc"));
    assert!(!constant_time_eq(b"abc", b"ab"));
    // Differences that cancel each other out bit by bit still count.
    assert!(!constant_time_eq(&[1, 2], &[2, 1]));
}

#[test]
fn scope_is_held_by_name_or_wildcard() {
    assert!(context(&["messages:read"]).require_scope("messages:read").is_ok());
    assert!(context(&["a", "*"]).require_scope("messages:read").is_ok());
    match context(&["messages:send"]).require_scope("messages:read") {
        Err(ApiError::Auth(msg)) => assert_eq!(msg, "missing required scope: messages:read"),
        other => panic!("expected Auth, got {other:?}"),
    }
    assert!(context(&[]).require_scope("*").is_err());
}

#[test]
fn key_hash_is_hexadecimal_sha256() {
    assert_eq!(key_hash("abc"), ABC_HASH);
    assert_eq!(
        key_hash(""),
        "e3b0c44298fc1c149afbf4c8996fb92427ae41e4649b934ca495991b7852b855"
    );
    assert_eq!(digest_text(&[1, 2, 3, 15, 16, 255]), "0102030f10ff");
}

#[test]
fn ingest_token_variable_has_its_name() {
    assert_eq!(INGEST_TOKEN_ENV, "SENTIO_INGEST_TOKEN");
}

#[test]
fn resolved_context_is_used_as_it_is() {
    let step = authenticate_header(Some(context(&["x"])), None, None);
    match step {
        AuthStep::Done(Ok(ctx)) => {
            assert_eq!(ctx.tenant_id, TenantId(7));
            assert_eq!(ctx.scopes, vec!["x"]);
            assert!(!ctx.shared_ingest);
        }
        other => panic!("expected the cached context, got {other:?}"),
    }
}

#[test]
fn missing_or_malformed_header_is_an_auth_error() {
    assert_eq!(
        auth_error(authenticate_header(None, None, None)),
        "missing authorization header"
    );
    for header in ["Basic abc", "bearer abc", "Bearer", ""] {
        assert_eq!(
            auth_error(authenticate_header(None, Some(header.to_string()), None)),
            "invalid authorization format, expected Bearer token"
        );
    }
}

#[test]
fn shared_ingest_token_grants_ingest_only() {
    let step = authenticate_header(None, Some("Bearer tok".to_string()), Some("tok"));
    match step {
        AuthStep::Done(Ok(ctx)) => {
            assert_eq!(ctx.tenant_id, TenantId(uuid::Uuid::nil().as_u128()));
            assert_eq!(ctx.scopes, vec!["messages:ingest"]);
            assert!(ctx.shared_ingest);
            assert!(ctx.require_scope("messages:ingest").is_ok());
            assert!(ctx.require_scope("messages:send").is_err());
        }
        other => panic!("expected the shared context, got {other:?}"),
    }
}

#[test]
fn authorization_header_is_read_from_the_map() {
    let mut headers = HeaderMap::new();
    headers.insert("Authorization", HeaderValue::from_static("Bearer abc"));
    headers.append("authorization", HeaderValue::from_static("Bearer second"));
    match start_authentication(None, &headers, Some("other")) {
        AuthStep::LookupApiKey { key_hash } => assert_eq!(key_hash, ABC_HASH),
        other => panic!("expected a lookup, got {other:?}"),
    }
    assert_eq!(
        auth_error(start_authentication(None, &HeaderMap::new(), None)),
        "missing authorization header"
    );
    let mut headers = HeaderMap::new();
    headers.insert("authorization", HeaderValue::from_bytes(b"Bearer \xff").unwrap());
    assert_eq!(
        auth_error(start_authentication(None, &headers, None)),
        "missing authorization header"
    );
}

#[test]
fn known_api_key_authenticates() {
    match on_api_key(ABC_HASH.to_string(), Ok(api_key())) {
        AuthStep::Done(Ok(ctx)) => {
            assert_eq!(ctx.tenant_id, TenantId(9));
            assert_eq!(ctx.scopes, vec!["messages:send"]);
            assert!(!ctx.shared_ingest);
        }
        other => panic!("expected a context, got {other:?}"),
    }
}

#[test]
fn unknown_api_key_leads_on_to_oauth() {
    let miss = Err(SentioError::Auth("no such key".to_string()));
    match on_api_key(ABC_HASH.to_string(), miss) {
        AuthStep::LookupOAuthToken { key_hash } => assert_eq!(key_hash, ABC_HASH),
        other => panic!("expected a lookup, got {other:?}"),
    }
}

#[test]
fn api_key_store_failure_is_internal() {
    for e in [
        SentioError::Other("down".to_string()),
        SentioError::NotFound("table".to_string()),
    ] {
        match on_api_key(ABC_HASH.to_string(), Err(e)) {
            AuthStep::Done(Err(ApiError::Internal(msg))) => {
                assert_eq!(msg, "authentication backend unavailable")
            }
            other => panic!("expected Internal, got {other:?}"),
        }
    }
}

#[test]
fn live_oauth_token_authenticates() {
    // The moment of expiry itself is still in time.
    let ctx = on_oauth_token(Ok(oauth_token(None, moment(100, 5))), moment(100, 5)).unwrap();
    assert_eq!(ctx.tenant_id, TenantId(11));
    assert_eq!(ctx.scopes, vec!["messages:read"]);
    assert!(!ctx.shared_ingest);
}

#[test]
fn dead_oauth_token_is_refused() {
    match on_oauth_token(Ok(oauth_token(None, moment(100, 5))), moment(100, 6)) {
        Err(ApiError::Auth(msg)) => assert_eq!(msg, "token has expired"),
        other => panic!("expected Auth, got {other:?}"),
    }
    match on_oauth_token(Ok(oauth_token(None, moment(99, 999))), moment(100, 0)) {
        Err(ApiError::Auth(msg)) => assert_eq!(msg, "token has expired"),
        other => panic!("expected Auth, got {other:?}"),
    }
    let revoked = oauth_token(Some(moment(1, 0)), moment(100, 0));
    match on_oauth_token(Ok(revoked), moment(500, 0)) {
        Err(ApiError::Auth(msg)) => assert_eq!(msg, "token has been revoked"),
        other => panic!("expected Auth, got {other:?}"),
    }
}

#[test]
fn oauth_miss_is_auth_and_failure_is_internal() {
    for e in [
        SentioError::Auth("no".to_string()),
        SentioError::NotFound("no".to_string()),
    ] {
        match on_oauth_token(Err(e), moment(0, 0)) {
            Err(ApiError::Auth(msg)) => assert_eq!(msg, "invalid or expired token"),
            other => panic!("expected Auth, got {other:?}"),
        }
    }
    match on_oauth_token(Err(SentioError::Other("down".to_string())), moment(0, 0)) {
        Err(ApiError::Internal(msg)) => assert_eq!(msg, "authentication backend unavailable"),
        other => panic!("expected Internal, got {other:?}"),
    }
}

#[test]
fn bootstrap_key_is_reported_while_it_works() {
    assert_eq!(bootstrap_key_hash(), key_hash("sentio_bootstrap_admin_CHANGE_ME"));
    match bootstrap_key_status(Ok(api_key())) {
        BootstrapKeyStatus::Active {
            key_prefix,
            tenant_id,
        } => {
            assert_eq!(key_prefix, "sk_1");
            assert_eq!(tenant_id, TenantId(9));
        }
        other => panic!("expected Active, got {other:?}"),
    }
    assert!(matches!(
        bootstrap_key_status(Err(SentioError::Auth("no".to_string()))),
        BootstrapKeyStatus::Inactive
    ));
    assert!(matches!(
        bootstrap_key_status(Err(SentioError::Other("down".to_string()))),
        BootstrapKeyStatus::Unknown(SentioError::Other(_))
    ));
}
