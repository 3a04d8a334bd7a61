use axum::http::{header, HeaderMap, HeaderValue};
use base64::Engine;
use sentio::address::{extract_addr_spec, parse_from_domain, validate_email_field};
use sentio::auth::{AuthContext, TenantId};
use sentio::errors::ApiError;
use sentio::ingest::{
    accept_request, format_of, message_with_envelope, parse_ingest_body, parse_json_ingest,
    parse_peer_addr, processing_to_api, reject_open_relay_shape, require_ingest_scope,
    EnvelopeHeaders, IngestBody, IngestFormat, IngestRequest, ParsedIngest,
};
use sentio::message::{IpAddr, ProcessingError};

fn sample_eml() -> &'static str {
    "From: alice@example.com\r\nTo: bob@shuv.bot\r\nSubject: hi\r\n\r\nHello\r\n"
}

fn v4(text: &str) -> Option<IpAddr> {
    let octets: Vec<u32> = text.split('.').map(|o| o.parse().ok()).collect::<Option<_>>()?;
    match octets[..] {
        [a, b, c, d] if octets.iter().all(|o| *o < 256) => {
            Some(IpAddr::V4(a << 24 | b << 16 | c << 8 | d))
        }
        _ => None,
    }
}

fn json_headers() -> HeaderMap {
    HeaderMap::from_iter([(
        header::CONTENT_TYPE,
        HeaderValue::from_static("application/json"),
    )])
}

fn json_body(fields: &[(&str, serde_json::Value)]) -> Vec<u8> {
    let mut map = serde_json::Map::new();
    for (name, value) in fields {
        map.insert(name.to_string(), value.clone());
    }
    serde_json::to_vec(&serde_json::Value::Object(map)).unwrap()
}

fn strings(values: &[&str]) -> serde_json::Value {
    serde_json::Value::from(values.to_vec())
}

fn read_json(body: &[u8]) -> Result<IngestRequest, String> {
    let value: serde_json::Value = serde_json::from_slice(body).map_err(|e| e.to_string())?;
    let text = |name: &str| value.get(name).and_then(|v| v.as_str()).map(|s| s.to_string());
    let list = value.get("envelope_to").and_then(|v| v.as_array());
    Ok(IngestRequest {
        envelope_from: text("envelope_from").ok_or("missing field `envelope_from`")?,
        envelope_to: list
            .ok_or("missing field `envelope_to`")?
            .iter()
            .map(|v| v.as_str().unwrap().to_string())
            .collect(),
        raw: text("raw"),
        raw_base64: text("raw_base64"),
        client_ip: text("client_ip"),
        helo_domain: text("helo_domain"),
    })
}

fn parse(
    headers: &HeaderMap,
    body: &[u8],
    http_peer: Option<IpAddr>,
) -> Result<ParsedIngest, ApiError> {
    let pending = match parse_ingest_body(headers, body.to_vec())? {
        IngestBody::Json(body) => parse_json_ingest(read_json(&body))?,
        IngestBody::Message(pending) => pending,
    };
    let parsed = pending.client_ip.as_deref().and_then(v4);
    pending.resolve(parsed, http_peer)
}

fn validation<T: std::fmt::Debug>(r: Result<T, ApiError>) -> String {
    match r {
        Err(ApiError::Validation(msg)) => msg,
        other => panic!("expected Validation, got {other:?}"),
    }
}

fn request() -> IngestRequest {
    IngestRequest {
        envelope_from: "alice@example.com".to_string(),
        envelope_to: vec!["bob@shuv.bot".to_string()],
        raw: None,
        raw_base64: None,
        client_ip: None,
        helo_domain: None,
    }
}

#[test]
fn json_ingest_parses_raw_and_envelope() {
    let body = json_body(&[
        ("envelope_from", "Alice <alice@example.com>".into()),
        ("envelope_to", strings(&["bob@shuv.bot"])),
        ("raw", sample_eml().into()),
        ("client_ip", "203.0.113.10".into()),
        ("helo_domain", "mail.example.com".into()),
    ]);
    let parsed = parse(&json_headers(), &body, None).unwrap();
    assert_eq!(parsed.envelope_from, "alice@example.com");
    assert_eq!(parsed.envelope_to, vec!["bob@shuv.bot"]);
    assert_eq!(parsed.raw, sample_eml().as_bytes());
    assert_eq!(parsed.peer_addr, v4("203.0.113.10").unwrap());
    assert_eq!(parsed.helo_domain.as_deref(), Some("mail.example.com"));
}

#[test]
fn json_ingest_accepts_raw_base64() {
    let b64 = base64::engine::general_purpose::STANDARD.encode(sample_eml().as_bytes());
    let body = json_body(&[
        ("envelope_from", "alice@example.com".into()),
        ("envelope_to", strings(&["bob@shuv.bot"])),
        ("raw_base64", b64.into()),
    ]);
    let parsed = parse(&json_headers(), &body, v4("192.0.2.1")).unwrap();
    assert_eq!(parsed.raw, sample_eml().as_bytes());
    assert_eq!(parsed.peer_addr, v4("192.0.2.1").unwrap());
}

#[test]
fn rfc822_ingest_reads_envelope_headers() {
    let mut headers = HeaderMap::new();
    headers.insert(
        header::CONTENT_TYPE,
        HeaderValue::from_static("message/rfc822"),
    );
    headers.insert(
        "x-envelope-from",
        HeaderValue::from_static("alice@example.com"),
    );
    headers.insert(
        "x-envelope-to",
        HeaderValue::from_static("bob@shuv.bot, carol@shuv.bot"),
    );
    headers.insert("x-client-ip", HeaderValue::from_static("198.51.100.9"));
    let body = sample_eml().as_bytes().to_vec();
    let parsed = parse(&headers, &body, None).unwrap();
    assert_eq!(parsed.envelope_from, "alice@example.com");
    assert_eq!(
        parsed.envelope_to,
        vec!["bob@shuv.bot".to_string(), "carol@shuv.bot".to_string()]
    );
    assert_eq!(parsed.peer_addr, v4("198.51.100.9").unwrap());
    assert_eq!(parsed.raw, sample_eml().as_bytes());
}

#[test]
fn reject_empty_envelope_to() {
    let err = reject_open_relay_shape("alice@example.com", &[], 100).unwrap_err();
    match err {
        ApiError::Validation(msg) => assert!(msg.contains("envelope_to")),
        other => panic!("expected Validation, got {other:?}"),
    }
}

#[test]
fn reject_recipient_without_domain() {
    let err = reject_open_relay_shape("alice@example.com", &["nobody".into()], 100).unwrap_err();
    match err {
        ApiError::Validation(msg) => assert!(msg.contains("envelope_to[0]")),
        other => panic!("expected Validation, got {other:?}"),
    }
}

#[test]
fn reject_too_many_recipients() {
    let many: Vec<String> = (0..3).map(|i| format!("u{i}@shuv.bot")).collect();
    let err = reject_open_relay_shape("alice@example.com", &many, 2).unwrap_err();
    match err {
        ApiError::Validation(msg) => assert!(msg.contains("exceeds")),
        other => panic!("expected Validation, got {other:?}"),
    }
}

#[test]
fn json_ingest_requires_raw() {
    let body = json_body(&[
        ("envelope_from", "alice@example.com".into()),
        ("envelope_to", strings(&["bob@shuv.bot"])),
    ]);
    let err = parse(&json_headers(), &body, None).unwrap_err();
    match err {
        ApiError::Validation(msg) => assert!(msg.contains("raw")),
        other => panic!("expected Validation, got {other:?}"),
    }
}

#[test]
fn ingest_scope_accepts_send_or_ingest_or_star() {
    let holder = |scope: &str| AuthContext {
        tenant_id: TenantId(uuid::Uuid::nil().as_u128()),
        scopes: vec![scope.to_string()],
        shared_ingest: false,
    };
    assert!(require_ingest_scope(&holder("messages:send")).is_ok());
    assert!(require_ingest_scope(&holder("messages:ingest")).is_ok());
    assert!(require_ingest_scope(&holder("*")).is_ok());
    assert!(require_ingest_scope(&holder("messages:read")).is_err());
}

#[test]
fn processing_reject_is_validation() {
    let err = processing_to_api(ProcessingError::Reject {
        message: "no valid recipient at evil.example".to_string(),
    });
    match err {
        ApiError::Validation(msg) => assert!(msg.contains("evil.example")),
        other => panic!("expected Validation, got {other:?}"),
    }
}

#[test]
fn processing_tempfail_is_unavailable() {
    let err = processing_to_api(ProcessingError::TempFail {
        message: "storage unavailable".to_string(),
    });
    match err {
        ApiError::Unavailable(_) => {}
        other => panic!("expected Unavailable, got {other:?}"),
    }
}

#[test]
fn missing_ingest_scope_is_named() {
    let auth = AuthContext {
        tenant_id: TenantId(1),
        scopes: vec![],
        shared_ingest: false,
    };
    match require_ingest_scope(&auth) {
        Err(ApiError::Auth(msg)) => assert_eq!(msg, "missing required scope: messages:ingest"),
        other => panic!("expected Auth, got {other:?}"),
    }
}

#[test]
fn envelope_shape_errors_have_their_texts() {
    let to = vec!["a@b".to_string(), "b".to_string()];
    assert_eq!(
        validation(reject_open_relay_shape("", &[], 1)),
        "envelope_to is required and must contain at least one recipient"
    );
    assert_eq!(
        validation(reject_open_relay_shape("", &to, 1)),
        "envelope_to exceeds 1 recipients"
    );
    assert_eq!(
        validation(reject_open_relay_shape("nobody", &to, 2)),
        "envelope_from 'nobody' is not a valid email address"
    );
    assert_eq!(
        validation(reject_open_relay_shape("", &to, 2)),
        "envelope_to[1] 'b' is not a valid email address"
    );
    let many: Vec<String> = (0..12)
        .map(|i| if i == 11 { "@x".to_string() } else { "a@b".to_string() })
        .collect();
    assert!(validation(reject_open_relay_shape("", &many, 12)).starts_with("envelope_to[11] "));
    // The null sender is in order.
    assert!(reject_open_relay_shape("", &to[..1], 1).is_ok());
    assert!(reject_open_relay_shape("x@y", &to[..1], 1).is_ok());
}

#[test]
fn addresses_are_taken_apart() {
    assert_eq!(extract_addr_spec("Alice <alice@example.com>"), "alice@example.com");
    assert_eq!(extract_addr_spec("  bob@shuv.bot\t"), "bob@shuv.bot");
    assert_eq!(extract_addr_spec("<>"), "");
    assert_eq!(extract_addr_spec("\"a<b\" < c@d >"), "c@d");
    assert_eq!(extract_addr_spec("a>"), "a>");
    assert_eq!(extract_addr_spec(""), "");
    assert_eq!(parse_from_domain("bob@shuv.bot").as_deref(), Some("shuv.bot"));
    assert_eq!(parse_from_domain("a@b@c").as_deref(), Some("c"));
    assert_eq!(parse_from_domain("nobody"), None);
    assert_eq!(parse_from_domain("nobody@"), None);
    assert!(validate_email_field("f", "a@b").is_ok());
    for bad in ["", "a", "@", "@b", "a@"] {
        assert_eq!(
            validation(validate_email_field("f", bad)),
            format!("f '{bad}' is not a valid email address")
        );
    }
}

#[test]
fn request_needs_exactly_one_message() {
    let both = IngestRequest {
        raw: Some("x".to_string()),
        raw_base64: Some("eA==".to_string()),
        ..request()
    };
    assert_eq!(
        validation(parse_json_ingest(Ok(both))),
        "provide either raw or raw_base64, not both"
    );
    assert_eq!(
        validation(parse_json_ingest(Ok(request()))),
        "raw or raw_base64 is required"
    );
    assert_eq!(
        validation(parse_json_ingest(Err("EOF at line 1".to_string()))),
        "invalid JSON: EOF at line 1"
    );
}

#[test]
fn base64_is_trimmed_and_decoded() {
    let given = |text: &str| IngestRequest {
        raw_base64: Some(text.to_string()),
        ..request()
    };
    assert_eq!(parse_json_ingest(Ok(given(" aGk=\r\n"))).unwrap().raw, b"hi");
    assert_eq!(
        validation(parse_json_ingest(Ok(given("aGk!")))),
        "invalid raw_base64: Invalid symbol 33, offset 3."
    );
    assert_eq!(
        accept_request(given("ignored"), Ok(vec![1, 2])).unwrap().raw,
        vec![1, 2]
    );
    assert_eq!(
        validation(accept_request(given("ignored"), Err("bad".to_string()))),
        "invalid raw_base64: bad"
    );
}

#[test]
fn text_and_base64_give_the_same_message() {
    let text = "Gr\u{fc}\u{df}e";
    let plain = parse_json_ingest(Ok(IngestRequest {
        raw: Some(text.to_string()),
        ..request()
    }))
    .unwrap();
    let encoded = parse_json_ingest(Ok(IngestRequest {
        raw_base64: Some(base64::engine::general_purpose::STANDARD.encode(text)),
        ..request()
    }))
    .unwrap();
    assert_eq!(plain.raw, encoded.raw);
    assert_eq!(plain.raw, text.as_bytes());
}

#[test]
fn both_forms_give_the_same_message() {
    let json = parse_json_ingest(Ok(IngestRequest {
        envelope_to: vec!["bob@shuv.bot".to_string(), "Carol <carol@shuv.bot>".to_string()],
        raw: Some(sample_eml().to_string()),
        client_ip: Some("198.51.100.9".to_string()),
        helo_domain: Some("mx.example.com".to_string()),
        ..request()
    }))
    .unwrap();
    for list in [
        "bob@shuv.bot,carol@shuv.bot",
        "bob@shuv.bot, Carol <carol@shuv.bot>",
        "<bob@shuv.bot> ,carol@shuv.bot",
    ] {
        let mut headers = HeaderMap::new();
        headers.insert("content-type", HeaderValue::from_static("message/rfc822"));
        headers.insert("x-envelope-from", HeaderValue::from_static("alice@example.com"));
        headers.insert("x-envelope-to", HeaderValue::from_static(list));
        headers.insert("x-client-ip", HeaderValue::from_static("198.51.100.9"));
        headers.insert("x-helo-domain", HeaderValue::from_static("mx.example.com"));
        match parse_ingest_body(&headers, sample_eml().as_bytes().to_vec()) {
            Ok(IngestBody::Message(message)) => {
                assert_eq!(message.envelope_from, json.envelope_from);
                assert_eq!(message.envelope_to, vec!["bob@shuv.bot", "carol@shuv.bot"]);
                assert_eq!(message.envelope_to, json.envelope_to);
                assert_eq!(message.raw, json.raw);
                assert_eq!(message.client_ip, json.client_ip);
                assert_eq!(message.helo_domain, json.helo_domain);
            }
            other => panic!("expected a message, got {other:?}"),
        }
    }
}

#[test]
fn empty_helo_domain_is_none() {
    let req = IngestRequest {
        raw: Some("x".to_string()),
        helo_domain: Some(String::new()),
        ..request()
    };
    assert_eq!(parse_json_ingest(Ok(req)).unwrap().helo_domain, None);
}

#[test]
fn content_type_decides_the_format() {
    let format = |text: &str| format_of(Some(text.to_string())).unwrap();
    assert_eq!(format_of(None).unwrap(), IngestFormat::Json);
    assert_eq!(format("application/json; charset=utf-8"), IngestFormat::Json);
    assert_eq!(format(" Text/JSON "), IngestFormat::Json);
    assert_eq!(format("MESSAGE/RFC822;x=y;z"), IngestFormat::Rfc822);
    assert_eq!(
        validation(format_of(Some("Text/Plain; a".to_string()))),
        "unsupported Content-Type 'text/plain': use application/json or message/rfc822"
    );
}

#[test]
fn content_type_that_is_no_text_counts_as_none() {
    let mut headers = HeaderMap::new();
    headers.insert("content-type", HeaderValue::from_bytes(b"\xfftext").unwrap());
    match parse_ingest_body(&headers, b"{}".to_vec()) {
        Ok(IngestBody::Json(body)) => assert_eq!(body, b"{}"),
        other => panic!("expected JSON, got {other:?}"),
    }
}

#[test]
fn envelope_headers_may_be_missing() {
    let none = EnvelopeHeaders {
        envelope_from: None,
        envelope_to: None,
        client_ip: None,
        helo_domain: None,
    };
    let message = message_with_envelope(none, b"body".to_vec());
    assert_eq!(message.envelope_from, "");
    assert!(message.envelope_to.is_empty());
    assert_eq!(message.raw, b"body");
    let some = EnvelopeHeaders {
        envelope_from: Some("A <a@b>".to_string()),
        envelope_to: Some(",, <x@y> ,z@w,".to_string()),
        client_ip: Some("::1".to_string()),
        helo_domain: Some("h".to_string()),
    };
    let message = message_with_envelope(some, Vec::new());
    assert_eq!(message.envelope_from, "a@b");
    assert_eq!(message.envelope_to, vec!["x@y", "z@w"]);
    assert_eq!(message.client_ip.as_deref(), Some("::1"));
    assert_eq!(message.helo_domain.as_deref(), Some("h"));
}

#[test]
fn header_values_are_trimmed_and_blank_ones_dropped() {
    let mut headers = HeaderMap::new();
    headers.insert("content-type", HeaderValue::from_static("message/rfc822"));
    headers.insert("X-Helo-Domain", HeaderValue::from_static(" \t mx "));
    headers.insert("x-client-ip", HeaderValue::from_static("  "));
    match parse_ingest_body(&headers, b"m".to_vec()) {
        Ok(IngestBody::Message(pending)) => {
            assert_eq!(pending.helo_domain.as_deref(), Some("mx"));
            assert_eq!(pending.client_ip, None);
        }
        other => panic!("expected a message, got {other:?}"),
    }
}

#[test]
fn peer_address_falls_back() {
    let peer = v4("192.0.2.1");
    assert_eq!(parse_peer_addr(None, None, peer).unwrap(), peer.unwrap());
    assert_eq!(parse_peer_addr(None, None, None).unwrap(), IpAddr::V4(0));
    assert_eq!(
        parse_peer_addr(Some("::1"), Some(IpAddr::V6(1)), peer).unwrap(),
        IpAddr::V6(1)
    );
    assert_eq!(
        validation(parse_peer_addr(Some("nowhere"), None, peer)),
        "client_ip 'nowhere' is not a valid IP address"
    );
}
