use axum::http::{HeaderMap, HeaderValue};
use sentio::auth::{AuthContext, TenantId};
use sentio::errors::{ApiError, SentioError};
use sentio::ingest::IngestRequest;
use sentio::message::{
    InboundMessage, IpAddr, MessageId, ProcessingError, ProcessingOutcome,
};
use sentio::session::{
    on_processed, start_ingest, DomainQuery, DomainRecord, IngestContext, IngestFailure,
    IngestSettings, IngestStep,
};

fn context(scope: &str, shared_ingest: bool) -> IngestContext {
    IngestContext {
        auth: AuthContext {
            tenant_id: TenantId(5),
            scopes: vec![scope.to_string()],
            shared_ingest,
        },
        settings: IngestSettings {
            hostname: "mx.example.com".to_string(),
            max_recipients_per_message: 2,
            max_message_size_mb: 1,
            max_received_headers: 50,
            processor_configured: true,
        },
        http_peer: Some(IpAddr::V4(1)),
    }
}

fn rfc822(to: &'static str) -> HeaderMap {
    let mut headers = HeaderMap::new();
    headers.insert("content-type", HeaderValue::from_static("message/rfc822"));
    headers.insert("x-envelope-from", HeaderValue::from_static("a@b"));
    headers.insert("x-envelope-to", HeaderValue::from_static(to));
    headers
}

fn enabled() -> Result<Option<DomainRecord>, SentioError> {
    Ok(Some(DomainRecord {
        use_for_receiving: true,
    }))
}

fn disabled() -> Result<Option<DomainRecord>, SentioError> {
    Ok(Some(DomainRecord {
        use_for_receiving: false,
    }))
}

fn refusal(step: IngestStep) -> ApiError {
    match step {
        IngestStep::Done(Err(IngestFailure::Api(e))) => e,
        other => panic!("expected a refusal, got {other:?}"),
    }
}

fn validation(step: IngestStep) -> String {
    match refusal(step) {
        ApiError::Validation(msg) => msg,
        other => panic!("expected Validation, got {other:?}"),
    }
}

fn delivered(step: IngestStep) -> InboundMessage {
    match step {
        IngestStep::Deliver(message) => message,
        other => panic!("expected a delivery, got {other:?}"),
    }
}

/// Answers one domain question with `found`.
fn answer(
    step: IngestStep,
    domain: &str,
    found: Result<Option<DomainRecord>, SentioError>,
) -> IngestStep {
    match step {
        IngestStep::AskDomain(check) => {
            match &check.query {
                DomainQuery::Owned {
                    tenant_id,
                    domain: asked,
                } => {
                    assert_eq!(*tenant_id, TenantId(5));
                    assert_eq!(asked, domain);
                }
                DomainQuery::Hosted { domain: asked } => assert_eq!(asked, domain),
            }
            check.on_domain(found)
        }
        other => panic!("expected a question, got {other:?}"),
    }
}

#[test]
fn accepted_message_takes_the_inbound_path() {
    let headers = rfc822("x@one.example, y@two.example");
    let step = start_ingest(context("messages:ingest", false), &headers, b"hello".to_vec());
    let step = answer(step, "one.example", enabled());
    let step = answer(step, "two.example", enabled());
    let message = delivered(step);
    assert_eq!(message.raw_data, b"hello");
    assert_eq!(message.envelope_from, "a@b");
    assert_eq!(message.envelope_to, vec!["x@one.example", "y@two.example"]);
    assert_eq!(message.peer_addr, IpAddr::V4(1));
    assert_eq!(message.client_domain, None);
    assert_eq!(message.server_hostname, "mx.example.com");
    assert!(message.authenticated_user.is_none());
    assert!(!message.tls_active);
    assert_eq!(message.max_received_headers, 50);
    assert!(message.dsn_ret.is_none() && message.dsn_envid.is_none());
    assert!(message.dsn_notify.is_empty() && message.dsn_orcpt.is_empty());
    let response = on_processed(Ok(ProcessingOutcome {
        queue_id: "TESTQUEUE".to_string(),
        message_id: MessageId(77),
    }))
    .unwrap();
    assert_eq!(response.id, MessageId(77));
    assert_eq!(response.queue_id, "TESTQUEUE");
    assert_eq!(response.status, "accepted");
}

#[test]
fn scope_is_asked_for_first() {
    let mut headers = HeaderMap::new();
    headers.insert("content-type", HeaderValue::from_static("image/png"));
    match refusal(start_ingest(context("messages:read", false), &headers, b"".to_vec())) {
        ApiError::Auth(msg) => assert_eq!(msg, "missing required scope: messages:ingest"),
        other => panic!("expected Auth, got {other:?}"),
    }
    let msg = validation(start_ingest(context("*", false), &headers, b"".to_vec()));
    assert!(msg.starts_with("unsupported Content-Type 'image/png'"));
}

#[test]
fn empty_message_is_refused() {
    let headers = rfc822("x@one.example");
    let step = start_ingest(context("*", false), &headers, b"".to_vec());
    assert_eq!(validation(step), "raw message is empty");
}

#[test]
fn envelope_shape_is_checked_before_domains() {
    let headers = rfc822("x@one.example,y@b,z@c");
    let step = start_ingest(context("*", false), &headers, b"m".to_vec());
    assert_eq!(validation(step), "envelope_to exceeds 2 recipients");
    let headers = rfc822("x@one.example,nobody");
    let step = start_ingest(context("*", false), &headers, b"m".to_vec());
    assert!(validation(step).starts_with("envelope_to[1] 'nobody'"));
}

#[test]
fn tenant_must_host_every_domain() {
    let headers = rfc822("x@one.example,y@two.example");
    let start = || start_ingest(context("*", false), &headers, b"m".to_vec());
    let missing = Err(SentioError::NotFound("domain".to_string()));
    let step = answer(answer(start(), "one.example", enabled()), "two.example", missing);
    assert_eq!(
        validation(step),
        "recipient domain 'two.example' is not hosted by this tenant"
    );
    let step = answer(start(), "one.example", Ok(None));
    assert_eq!(
        validation(step),
        "recipient domain 'one.example' is not hosted by this tenant"
    );
    let step = answer(start(), "one.example", disabled());
    assert_eq!(
        validation(step),
        "domain 'one.example' is not enabled for receiving"
    );
    let down = Err(SentioError::Other("down".to_string()));
    assert!(matches!(
        answer(start(), "one.example", down),
        IngestStep::Done(Err(IngestFailure::Store(SentioError::Other(_))))
    ));
}

#[test]
fn shared_token_asks_globally() {
    let headers = rfc822("x@one.example");
    let start = || start_ingest(context("messages:ingest", true), &headers, b"m".to_vec());
    match start() {
        IngestStep::AskDomain(check) => {
            assert!(matches!(check.query, DomainQuery::Hosted { .. }))
        }
        other => panic!("expected a question, got {other:?}"),
    }
    let step = answer(start(), "one.example", Ok(None));
    assert_eq!(
        validation(step),
        "recipient domain 'one.example' is not hosted for receiving"
    );
    delivered(answer(start(), "one.example", disabled()));
    let gone = Err(SentioError::NotFound("domain".to_string()));
    assert!(matches!(
        answer(start(), "one.example", gone),
        IngestStep::Done(Err(IngestFailure::Store(SentioError::NotFound(_))))
    ));
}

#[test]
fn size_limit_is_in_whole_megabytes() {
    let headers = rfc822("x@one.example");
    let body = vec![b'x'; 1024 * 1024];
    let step = start_ingest(context("*", false), &headers, body);
    assert_eq!(
        delivered(answer(step, "one.example", enabled())).raw_data.len(),
        1024 * 1024
    );
    let body = vec![b'x'; 1024 * 1024 + 1];
    let step = start_ingest(context("*", false), &headers, body);
    assert_eq!(
        validation(answer(step, "one.example", enabled())),
        "message exceeds max size of 1 MB"
    );
}

#[test]
fn missing_pipeline_is_unavailable() {
    let headers = rfc822("x@one.example");
    let mut context = context("*", false);
    context.settings.processor_configured = false;
    let step = start_ingest(context, &headers, b"m".to_vec());
    match refusal(answer(step, "one.example", enabled())) {
        ApiError::Unavailable(msg) => {
            assert_eq!(msg, "inbound ingest is not configured on this process")
        }
        other => panic!("expected Unavailable, got {other:?}"),
    }
}

#[test]
fn json_request_names_its_peer() {
    let request = |client_ip: Option<&str>| IngestRequest {
        envelope_from: String::new(),
        envelope_to: vec!["x@one.example".to_string()],
        raw: Some("hi".to_string()),
        raw_base64: None,
        client_ip: client_ip.map(|s| s.to_string()),
        helo_domain: Some("helo".to_string()),
    };
    let body = || b"{}".to_vec();
    let start = || match start_ingest(context("*", false), &HeaderMap::new(), body()) {
        IngestStep::ReadJson { body, context } => {
            assert_eq!(body, b"{}");
            context
        }
        other => panic!("expected JSON, got {other:?}"),
    };
    let step = start().on_json(Ok(request(None)));
    let message = delivered(answer(step, "one.example", enabled()));
    assert_eq!(message.peer_addr, IpAddr::V4(1));
    assert_eq!(message.raw_data, b"hi");
    assert_eq!(message.client_domain.as_deref(), Some("helo"));

    let named = || match start().on_json(Ok(request(Some("::2")))) {
        IngestStep::ReadAddress { text, check } => {
            assert_eq!(text, "::2");
            check
        }
        other => panic!("expected an address, got {other:?}"),
    };
    let step = named().on_address(Some(IpAddr::V6(2)));
    let message = delivered(answer(step, "one.example", enabled()));
    assert_eq!(message.peer_addr, IpAddr::V6(2));
    assert_eq!(
        validation(named().on_address(None)),
        "client_ip '::2' is not a valid IP address"
    );
    assert_eq!(
        validation(start().on_json(Err("EOF".to_string()))),
        "invalid JSON: EOF"
    );
}

#[test]
fn pipeline_refusals_are_answered() {
    let reject = ProcessingError::Reject {
        message: "spam".to_string(),
    };
    match on_processed(Err(reject)) {
        Err(IngestFailure::Api(ApiError::Validation(msg))) => assert_eq!(msg, "spam"),
        other => panic!("expected Validation, got {other:?}"),
    }
    let tempfail = ProcessingError::TempFail {
        message: "later".to_string(),
    };
    match on_processed(Err(tempfail)) {
        Err(IngestFailure::Api(ApiError::Unavailable(msg))) => assert_eq!(msg, "later"),
        other => panic!("expected Unavailable, got {other:?}"),
    }
}
