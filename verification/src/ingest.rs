//! HTTP ingest into the inbound pipeline: reading the request.
//!
//! `POST /v1/messages/ingest` is the HTTP equivalent of SMTP DATA completion.
//!
//! With `Content-Type: application/json` the body is an [`IngestRequest`]: `raw`
//! holds the RFC 822 message, or `raw_base64` where it is not valid UTF-8;
//! `client_ip` is the original SMTP peer, and the HTTP peer stands in for it.
//!
//! With `Content-Type: message/rfc822` the body is the message, and the envelope
//! stands in the headers `X-Envelope-From`, `X-Envelope-To` (comma-separated),
//! and optionally `X-Client-Ip` and `X-Helo-Domain`.

use axum::http::{HeaderMap, HeaderValue};
use base64::Engine;
use vstd::prelude::*;
use vstd::slice::slice_to_vec;
use vstd::string::*;
use vstd::utf8::*;

use crate::address::{
    addr_spec_of, email_field, extract_addr_spec, is_address, validate_email_field,
};
use crate::auth::{grants, AuthContext};
use crate::errors::{outcome, ApiError, ApiErrorView};
use crate::headers::{header_text, header_text_of};
use crate::message::{IpAddr, ProcessingError, ProcessingErrorView};
use crate::text::{
    ascii_lowered, before, decimal, decimal_of, is_white_space, pieces,
    pieces_come_one_after_the_other, same_text, space_around_is_dropped, split, text_before,
    text_before_a_separator, to_ascii_lowercase, trim, trimmed,
};

verus! {

/// The JSON form of an ingest request.
#[derive(Debug)]
pub struct IngestRequest {
    /// SMTP MAIL FROM. Empty string is the null sender `<>`.
    pub envelope_from: String,
    /// SMTP RCPT TO recipients. Every domain must be hosted by the tenant.
    pub envelope_to: Vec<String>,
    /// RFC 822 message as a JSON string.
    pub raw: Option<String>,
    /// Base64-encoded RFC 822 when `raw` is not valid UTF-8.
    pub raw_base64: Option<String>,
    /// Original SMTP peer IP for SPF. Defaults to the HTTP client address.
    pub client_ip: Option<String>,
    /// EHLO/HELO name from the original SMTP session, if known.
    pub helo_domain: Option<String>,
}

/// What an [`IngestRequest`] says.
pub struct IngestRequestView {
    pub envelope_from: Seq<char>,
    pub envelope_to: Seq<Seq<char>>,
    pub raw: Option<Seq<char>>,
    pub raw_base64: Option<Seq<char>>,
    pub client_ip: Option<Seq<char>>,
    pub helo_domain: Option<Seq<char>>,
}

impl View for IngestRequest {
    type V = IngestRequestView;

    open spec fn view(&self) -> IngestRequestView {
        IngestRequestView {
            envelope_from: self.envelope_from@,
            envelope_to: self.envelope_to.deep_view(),
            raw: self.raw.deep_view(),
            raw_base64: self.raw_base64.deep_view(),
            client_ip: self.client_ip.deep_view(),
            helo_domain: self.helo_domain.deep_view(),
        }
    }
}

/// A message with its envelope, before the peer address has been read.
#[derive(Debug)]
pub struct PendingIngest {
    pub envelope_from: String,
    pub envelope_to: Vec<String>,
    pub raw: Vec<u8>,
    pub client_ip: Option<String>,
    pub helo_domain: Option<String>,
}

/// What a [`PendingIngest`] says.
pub struct PendingIngestView {
    pub envelope_from: Seq<char>,
    pub envelope_to: Seq<Seq<char>>,
    pub raw: Seq<u8>,
    pub client_ip: Option<Seq<char>>,
    pub helo_domain: Option<Seq<char>>,
}

impl View for PendingIngest {
    type V = PendingIngestView;

    open spec fn view(&self) -> PendingIngestView {
        PendingIngestView {
            envelope_from: self.envelope_from@,
            envelope_to: self.envelope_to.deep_view(),
            raw: self.raw@,
            client_ip: self.client_ip.deep_view(),
            helo_domain: self.helo_domain.deep_view(),
        }
    }
}

/// A message with its envelope.
#[derive(Debug)]
pub struct ParsedIngest {
    pub envelope_from: String,
    pub envelope_to: Vec<String>,
    pub raw: Vec<u8>,
    pub peer_addr: IpAddr,
    pub helo_domain: Option<String>,
}

/// What a [`ParsedIngest`] says.
pub struct ParsedIngestView {
    pub envelope_from: Seq<char>,
    pub envelope_to: Seq<Seq<char>>,
    pub raw: Seq<u8>,
    pub peer_addr: IpAddr,
    pub helo_domain: Option<Seq<char>>,
}

impl View for ParsedIngest {
    type V = ParsedIngestView;

    open spec fn view(&self) -> ParsedIngestView {
        ParsedIngestView {
            envelope_from: self.envelope_from@,
            envelope_to: self.envelope_to.deep_view(),
            raw: self.raw@,
            peer_addr: self.peer_addr,
            helo_domain: self.helo_domain.deep_view(),
        }
    }
}

/// How an ingest body goes on to be read.
#[derive(Debug)]
pub enum IngestBody {
    /// The body is JSON: read an [`IngestRequest`] from it and go on with
    /// [`parse_json_ingest`].
    Json(Vec<u8>),
    /// The body is a message.
    Message(PendingIngest),
}

/// What an [`IngestBody`] says.
pub enum IngestBodyView {
    Json(Seq<u8>),
    Message(PendingIngestView),
}

impl View for IngestBody {
    type V = IngestBodyView;

    open spec fn view(&self) -> IngestBodyView {
        match self {
            IngestBody::Json(body) => IngestBodyView::Json(body@),
            IngestBody::Message(pending) => IngestBodyView::Message(pending@),
        }
    }
}

/// What reading `text` as standard base64 gives: the bytes, or what is wrong
/// with it.
pub uninterp spec fn base64_decoded(text: Seq<char>) -> Result<Seq<u8>, Seq<char>>;

/// `base64::engine::general_purpose::STANDARD.decode`, its error by the text
/// that it displays. The outcome is a function of the text alone; which one is
/// left to its name.
#[verifier::external_body]
fn decode_base64(text: &str) -> (r: Result<Vec<u8>, String>)
    ensures
        decoding(r) == base64_decoded(text@),
{
    match base64::engine::general_purpose::STANDARD.decode(text) {
        Ok(bytes) => Ok(bytes),
        Err(e) => Err(e.to_string()),
    }
}

/// A decoding, bytes and error text taken by their views.
pub open spec fn decoding(r: Result<Vec<u8>, String>) -> Result<Seq<u8>, Seq<char>> {
    match r {
        Ok(bytes) => Ok(bytes@),
        Err(text) => Err(text@),
    }
}

/// A reading of the body as JSON, request and error text taken by their views.
pub open spec fn reading(r: Result<IngestRequest, String>) -> Result<IngestRequestView, Seq<char>> {
    match r {
        Ok(request) => Ok(request@),
        Err(text) => Err(text@),
    }
}

/// `text`, unless it is empty.
pub open spec fn non_empty(text: Option<Seq<char>>) -> Option<Seq<char>> {
    match text {
        Some(t) => if t.len() > 0 {
            Some(t)
        } else {
            None
        },
        None => None,
    }
}

/// The bare addresses of `values`.
pub open spec fn addr_specs_of(values: Seq<Seq<char>>) -> Seq<Seq<char>> {
    values.map_values(|v: Seq<char>| addr_spec_of(v))
}

/// The message bytes of a JSON request, `decoded` being what its `raw_base64`
/// decodes to.
pub open spec fn request_bytes(
    request: IngestRequestView,
    decoded: Result<Seq<u8>, Seq<char>>,
) -> Result<Seq<u8>, ApiErrorView> {
    match (request.raw, request.raw_base64) {
        (Some(_), Some(_)) => Err(
            ApiErrorView::Validation("provide either raw or raw_base64, not both"@),
        ),
        (Some(text), None) => Ok(encode_utf8(text)),
        (None, Some(_)) => match decoded {
            Ok(bytes) => Ok(bytes),
            Err(text) => Err(ApiErrorView::Validation("invalid raw_base64: "@ + text)),
        },
        (None, None) => Err(ApiErrorView::Validation("raw or raw_base64 is required"@)),
    }
}

/// The message of a JSON request, `decoded` being what its `raw_base64` decodes
/// to.
pub open spec fn request_message(
    request: IngestRequestView,
    decoded: Result<Seq<u8>, Seq<char>>,
) -> Result<PendingIngestView, ApiErrorView> {
    match request_bytes(request, decoded) {
        Err(e) => Err(e),
        Ok(raw) => Ok(
            PendingIngestView {
                envelope_from: addr_spec_of(request.envelope_from),
                envelope_to: addr_specs_of(request.envelope_to),
                raw,
                client_ip: request.client_ip,
                helo_domain: non_empty(request.helo_domain),
            },
        ),
    }
}

/// The message of a body that was read as JSON.
pub open spec fn json_message(read: Result<IngestRequestView, Seq<char>>) -> Result<
    PendingIngestView,
    ApiErrorView,
> {
    match read {
        Err(text) => Err(ApiErrorView::Validation("invalid JSON: "@ + text)),
        Ok(request) => request_message(request, base64_decoded(trimmed(request.raw_base64->0))),
    }
}

/// `text`, unless it is empty.
fn keep_non_empty(text: Option<String>) -> (r: Option<String>)
    ensures
        r.deep_view() == non_empty(text.deep_view()),
{
    match text {
        Some(t) => if t.as_str().is_empty() {
            None
        } else {
            Some(t)
        },
        None => None,
    }
}

/// The bare addresses of `values`.
fn extract_addr_specs(values: &Vec<String>) -> (r: Vec<String>)
    ensures
        r.deep_view() == addr_specs_of(values.deep_view()),
{
    let mut r: Vec<String> = Vec::new();
    let mut i: usize = 0;
    while i < values.len()
        invariant
            i <= values@.len(),
            r@.len() == i,
            forall|j: int|
                0 <= j < i ==> (#[trigger] r@[j])@ == addr_spec_of(values.deep_view()[j]),
        decreases values.len() - i,
    {
        r.push(extract_addr_spec(values[i].as_str()));
        i += 1;
    }
    assert(r.deep_view() =~= addr_specs_of(values.deep_view()));
    r
}

/// The message of a JSON request, `decoded` being what its `raw_base64` decodes
/// to. Without a `raw_base64`, `decoded` plays no part.
pub fn accept_request(request: IngestRequest, decoded: Result<Vec<u8>, String>) -> (r: Result<
    PendingIngest,
    ApiError,
>)
    ensures
        outcome(r) == request_message(request@, decoding(decoded)),
{
    let raw: Vec<u8> = match (request.raw, request.raw_base64) {
        (Some(_), Some(_)) => {
            return Err(
                ApiError::Validation("provide either raw or raw_base64, not both".to_owned()),
            );
        },
        (Some(text), None) => slice_to_vec(text.as_str().as_bytes()),
        (None, Some(_)) => match decoded {
            Ok(bytes) => bytes,
            Err(text) => {
                return Err(
                    ApiError::Validation("invalid raw_base64: ".to_owned().concat(text.as_str())),
                );
            },
        },
        (None, None) => {
            return Err(ApiError::Validation("raw or raw_base64 is required".to_owned()));
        },
    };
    Ok(
        PendingIngest {
            envelope_from: extract_addr_spec(request.envelope_from.as_str()),
            envelope_to: extract_addr_specs(&request.envelope_to),
            raw,
            client_ip: request.client_ip,
            helo_domain: keep_non_empty(request.helo_domain),
        },
    )
}

/// The message of a body that was read as JSON.
pub fn parse_json_ingest(read: Result<IngestRequest, String>) -> (r: Result<
    PendingIngest,
    ApiError,
>)
    ensures
        outcome(r) == json_message(reading(read)),
{
    match read {
        Err(text) => Err(ApiError::Validation("invalid JSON: ".to_owned().concat(text.as_str()))),
        Ok(request) => {
            let decoded: Result<Vec<u8>, String> = match (&request.raw, &request.raw_base64) {
                (None, Some(text)) => decode_base64(trim(text.as_str()).as_str()),
                _ => Ok(Vec::new()),
            };
            accept_request(request, decoded)
        },
    }
}

/// The text under `name` without white space around it, unless that is empty.
pub open spec fn header_str_of(headers: HeaderMap<HeaderValue>, name: Seq<char>) -> Option<Seq<char>> {
    match header_text_of(headers, name) {
        Some(text) => non_empty(Some(trimmed(text))),
        None => None,
    }
}

/// The comma-separated addresses of `list`, without the empty ones.
pub open spec fn recipient_list(list: Seq<char>) -> Seq<Seq<char>> {
    addr_specs_of(pieces(list, ',')).filter(|a: Seq<char>| a.len() > 0)
}

/// The envelope of a message as headers give it, each value without white space
/// around it and not empty.
#[derive(Debug)]
pub struct EnvelopeHeaders {
    pub envelope_from: Option<String>,
    pub envelope_to: Option<String>,
    pub client_ip: Option<String>,
    pub helo_domain: Option<String>,
}

/// What [`EnvelopeHeaders`] say.
pub struct EnvelopeHeadersView {
    pub envelope_from: Option<Seq<char>>,
    pub envelope_to: Option<Seq<char>>,
    pub client_ip: Option<Seq<char>>,
    pub helo_domain: Option<Seq<char>>,
}

impl View for EnvelopeHeaders {
    type V = EnvelopeHeadersView;

    open spec fn view(&self) -> EnvelopeHeadersView {
        EnvelopeHeadersView {
            envelope_from: self.envelope_from.deep_view(),
            envelope_to: self.envelope_to.deep_view(),
            client_ip: self.client_ip.deep_view(),
            helo_domain: self.helo_domain.deep_view(),
        }
    }
}

/// The envelope that `headers` give.
pub open spec fn envelope_headers_of(headers: HeaderMap<HeaderValue>) -> EnvelopeHeadersView {
    EnvelopeHeadersView {
        envelope_from: header_str_of(headers, "x-envelope-from"@),
        envelope_to: header_str_of(headers, "x-envelope-to"@),
        client_ip: header_str_of(headers, "x-client-ip"@),
        helo_domain: header_str_of(headers, "x-helo-domain"@),
    }
}

/// The message `body` with the envelope that headers give.
pub open spec fn enveloped_message(envelope: EnvelopeHeadersView, body: Seq<u8>) -> PendingIngestView {
    PendingIngestView {
        envelope_from: match envelope.envelope_from {
            Some(text) => addr_spec_of(text),
            None => Seq::empty(),
        },
        envelope_to: match envelope.envelope_to {
            Some(text) => recipient_list(text),
            None => Seq::empty(),
        },
        raw: body,
        client_ip: envelope.client_ip,
        helo_domain: envelope.helo_domain,
    }
}

/// The media type of a request with the given content type: without parameters,
/// in lower case, and JSON where there is none.
pub open spec fn media_type(content_type: Option<Seq<char>>) -> Seq<char> {
    ascii_lowered(
        trimmed(
            text_before(
                match content_type {
                    Some(text) => text,
                    None => "application/json"@,
                },
                ';',
            ),
        ),
    )
}

/// How a body is written.
#[derive(Debug, Clone, Copy, PartialEq, Eq, Structural)]
pub enum IngestFormat {
    Json,
    Rfc822,
}

/// The format that a content type stands for.
pub open spec fn ingest_format(content_type: Option<Seq<char>>) -> Result<
    IngestFormat,
    ApiErrorView,
> {
    let media = media_type(content_type);
    if media == "application/json"@ || media == "text/json"@ {
        Ok(IngestFormat::Json)
    } else if media == "message/rfc822"@ {
        Ok(IngestFormat::Rfc822)
    } else {
        Err(
            ApiErrorView::Validation(
                "unsupported Content-Type '"@ + media
                    + "': use application/json or message/rfc822"@,
            ),
        )
    }
}

/// How the body of a request goes on to be read.
pub open spec fn ingest_body(headers: HeaderMap<HeaderValue>, body: Seq<u8>) -> Result<
    IngestBodyView,
    ApiErrorView,
> {
    match ingest_format(header_text_of(headers, "content-type"@)) {
        Err(e) => Err(e),
        Ok(IngestFormat::Json) => Ok(IngestBodyView::Json(body)),
        Ok(IngestFormat::Rfc822) => Ok(
            IngestBodyView::Message(enveloped_message(envelope_headers_of(headers), body)),
        ),
    }
}

/// The text under `name` without white space around it, unless that is empty.
pub fn header_str(headers: &HeaderMap, name: &str) -> (r: Option<String>)
    ensures
        r.deep_view() == header_str_of(*headers, name@),
{
    match header_text(headers, name) {
        Some(text) => keep_non_empty(Some(trim(text.as_str()))),
        None => None,
    }
}

/// The comma-separated addresses of `list`, without the empty ones.
fn parse_recipient_list(list: &str) -> (r: Vec<String>)
    ensures
        r.deep_view() == recipient_list(list@),
{
    let parts = split(list, ',');
    let addresses = extract_addr_specs(&parts);
    let ghost all = addresses.deep_view();
    let ghost filled = |a: Seq<char>| a.len() > 0;
    let mut r: Vec<String> = Vec::new();
    assert(all.take(0) =~= Seq::<Seq<char>>::empty());
    assert(r.deep_view() =~= all.take(0).filter(filled)) by {
        reveal(Seq::filter);
    }
    for address in it: addresses
        invariant
            it.seq() == addresses@,
            all == addresses.deep_view(),
            filled == (|a: Seq<char>| a.len() > 0),
            r.deep_view() == all.take(it.index() as int).filter(filled),
    {
        let ghost i = it.index() as int;
        let ghost kept = r.deep_view();
        assert(all[i] == address@);
        assert(all.take(i + 1).drop_last() =~= all.take(i));
        assert(all.take(i + 1).last() == all[i]);
        assert(all.take(i + 1).filter(filled) == (if filled(all[i]) {
            all.take(i).filter(filled).push(all[i])
        } else {
            all.take(i).filter(filled)
        })) by {
            reveal(Seq::filter);
        }
        if !address.as_str().is_empty() {
            r.push(address);
            assert(r.deep_view() =~= kept.push(all[i]));
        }
    }
    assert(all.take(all.len() as int) =~= all);
    r
}

/// The message `body` with the envelope that headers give.
pub fn message_with_envelope(envelope: EnvelopeHeaders, body: Vec<u8>) -> (r: PendingIngest)
    ensures
        r@ == enveloped_message(envelope@, body@),
{
    let envelope_from = match envelope.envelope_from {
        Some(text) => extract_addr_spec(text.as_str()),
        None => String::new(),
    };
    let envelope_to = match envelope.envelope_to {
        Some(text) => parse_recipient_list(text.as_str()),
        None => Vec::new(),
    };
    assert(envelope@.envelope_to is None ==> envelope_to.deep_view() =~= Seq::<
        Seq<char>,
    >::empty());
    PendingIngest {
        envelope_from,
        envelope_to,
        raw: body,
        client_ip: envelope.client_ip,
        helo_domain: envelope.helo_domain,
    }
}

/// The message of a request whose body is `body` and whose envelope stands in
/// `headers`.
pub fn parse_rfc822_ingest(headers: &HeaderMap, body: Vec<u8>) -> (r: PendingIngest)
    ensures
        r@ == enveloped_message(envelope_headers_of(*headers), body@),
{
    let envelope = EnvelopeHeaders {
        envelope_from: header_str(headers, "x-envelope-from"),
        envelope_to: header_str(headers, "x-envelope-to"),
        client_ip: header_str(headers, "x-client-ip"),
        helo_domain: header_str(headers, "x-helo-domain"),
    };
    message_with_envelope(envelope, body)
}

/// The format that a content type stands for.
pub fn format_of(content_type: Option<String>) -> (r: Result<IngestFormat, ApiError>)
    ensures
        (match r {
            Ok(format) => Ok(format),
            Err(e) => Err(e@),
        }) == ingest_format(content_type.deep_view()),
{
    let content_type = match content_type {
        Some(text) => text,
        None => "application/json".to_owned(),
    };
    let media = to_ascii_lowercase(trim(before(content_type.as_str(), ';').as_str()).as_str());
    if same_text(media.as_str(), "application/json") || same_text(media.as_str(), "text/json") {
        Ok(IngestFormat::Json)
    } else if same_text(media.as_str(), "message/rfc822") {
        Ok(IngestFormat::Rfc822)
    } else {
        Err(
            ApiError::Validation(
                "unsupported Content-Type '".to_owned().concat(media.as_str()).concat(
                    "': use application/json or message/rfc822",
                ),
            ),
        )
    }
}

/// How the body of a request goes on to be read: by its content type.
pub fn parse_ingest_body(headers: &HeaderMap, body: Vec<u8>) -> (r: Result<IngestBody, ApiError>)
    ensures
        outcome(r) == ingest_body(*headers, body@),
{
    match format_of(header_text(headers, "content-type")) {
        Err(e) => Err(e),
        Ok(IngestFormat::Json) => Ok(IngestBody::Json(body)),
        Ok(IngestFormat::Rfc822) => Ok(IngestBody::Message(parse_rfc822_ingest(headers, body))),
    }
}

/// The peer of a message. `client_ip` is the address that the request names and
/// `parsed` what reading it as an IP address gave; without one, the HTTP peer
/// stands in, and without that the unspecified address.
pub open spec fn peer_of(
    client_ip: Option<Seq<char>>,
    parsed: Option<IpAddr>,
    http_peer: Option<IpAddr>,
) -> Result<IpAddr, ApiErrorView> {
    match client_ip {
        Some(raw) => match parsed {
            Some(addr) => Ok(addr),
            None => Err(
                ApiErrorView::Validation("client_ip '"@ + raw + "' is not a valid IP address"@),
            ),
        },
        None => match http_peer {
            Some(addr) => Ok(addr),
            None => Ok(IpAddr::V4(0)),
        },
    }
}

/// The peer of a message. `client_ip` is the address that the request names and
/// `parsed` what reading it as an IP address gave.
pub fn parse_peer_addr(
    client_ip: Option<&str>,
    parsed: Option<IpAddr>,
    http_peer: Option<IpAddr>,
) -> (r: Result<IpAddr, ApiError>)
    ensures
        (match r {
            Ok(addr) => Ok(addr),
            Err(e) => Err(e@),
        }) == peer_of(client_ip.deep_view(), parsed, http_peer),
{
    match client_ip {
        Some(raw) => match parsed {
            Some(addr) => Ok(addr),
            None => Err(
                ApiError::Validation(
                    "client_ip '".to_owned().concat(raw).concat("' is not a valid IP address"),
                ),
            ),
        },
        None => match http_peer {
            Some(addr) => Ok(addr),
            None => Ok(IpAddr::V4(0)),
        },
    }
}

/// A pending message with its peer.
pub open spec fn resolved(
    pending: PendingIngestView,
    parsed: Option<IpAddr>,
    http_peer: Option<IpAddr>,
) -> Result<ParsedIngestView, ApiErrorView> {
    match peer_of(pending.client_ip, parsed, http_peer) {
        Err(e) => Err(e),
        Ok(peer_addr) => Ok(
            ParsedIngestView {
                envelope_from: pending.envelope_from,
                envelope_to: pending.envelope_to,
                raw: pending.raw,
                peer_addr,
                helo_domain: pending.helo_domain,
            },
        ),
    }
}

impl PendingIngest {
    /// Completes the message with its peer. `parsed` is what reading its
    /// `client_ip` as an IP address gave.
    pub fn resolve(self, parsed: Option<IpAddr>, http_peer: Option<IpAddr>) -> (r: Result<
        ParsedIngest,
        ApiError,
    >)
        ensures
            outcome(r) == resolved(self@, parsed, http_peer),
    {
        let client_ip: Option<&str> = match &self.client_ip {
            Some(text) => Some(text.as_str()),
            None => None,
        };
        match parse_peer_addr(client_ip, parsed, http_peer) {
            Err(e) => Err(e),
            Ok(peer_addr) => Ok(
                ParsedIngest {
                    envelope_from: self.envelope_from,
                    envelope_to: self.envelope_to,
                    raw: self.raw,
                    peer_addr,
                    helo_domain: self.helo_domain,
                },
            ),
        }
    }
}

/// Whether a holder of `scopes` may ingest.
pub open spec fn may_ingest(scopes: Seq<Seq<char>>) -> bool {
    grants(scopes, "messages:ingest"@) || grants(scopes, "messages:send"@)
}

/// The outcome of asking for the right to ingest.
pub open spec fn ingest_scope(scopes: Seq<Seq<char>>) -> Result<(), ApiErrorView> {
    if may_ingest(scopes) {
        Ok(())
    } else {
        Err(ApiErrorView::Auth("missing required scope: messages:ingest"@))
    }
}

/// Succeeds if the context may ingest: with `messages:ingest`, `messages:send`
/// or `*`.
pub fn require_ingest_scope(auth: &AuthContext) -> (r: Result<(), ApiError>)
    ensures
        outcome(r) == ingest_scope(auth@.scopes),
{
    if auth.require_scope("messages:ingest").is_ok() || auth.require_scope("messages:send").is_ok() {
        Ok(())
    } else {
        Err(ApiError::Auth("missing required scope: messages:ingest".to_owned()))
    }
}

/// The name under which recipient `i` is reported.
pub open spec fn recipient_field(i: nat) -> Seq<char> {
    "envelope_to["@ + decimal_of(i) + "]"@
}

/// The outcome of checking the recipients from `i` on, the first that is no
/// address deciding.
pub open spec fn recipients_shape(envelope_to: Seq<Seq<char>>, i: nat) -> Result<(), ApiErrorView>
    decreases envelope_to.len() - i,
{
    if i >= envelope_to.len() {
        Ok(())
    } else {
        match email_field(recipient_field(i), envelope_to[i as int]) {
            Err(e) => Err(e),
            Ok(_) => recipients_shape(envelope_to, i + 1),
        }
    }
}

/// The outcome of checking the shape of an envelope: there is a recipient, there
/// are no more than `max_recipients`, the sender is an address or empty, and
/// every recipient is an address.
pub open spec fn relay_shape(
    envelope_from: Seq<char>,
    envelope_to: Seq<Seq<char>>,
    max_recipients: nat,
) -> Result<(), ApiErrorView> {
    if envelope_to.len() == 0 {
        Err(
            ApiErrorView::Validation(
                "envelope_to is required and must contain at least one recipient"@,
            ),
        )
    } else if envelope_to.len() > max_recipients {
        Err(
            ApiErrorView::Validation(
                "envelope_to exceeds "@ + decimal_of(max_recipients) + " recipients"@,
            ),
        )
    } else if envelope_from.len() > 0 && email_field("envelope_from"@, envelope_from) is Err {
        email_field("envelope_from"@, envelope_from)
    } else {
        recipients_shape(envelope_to, 0)
    }
}

/// Rejects requests that look like an open relay before they reach the pipeline.
pub fn reject_open_relay_shape(
    envelope_from: &str,
    envelope_to: &[String],
    max_recipients: usize,
) -> (r: Result<(), ApiError>)
    ensures
        outcome(r) == relay_shape(envelope_from@, envelope_to.deep_view(), max_recipients as nat),
{
    if envelope_to.len() == 0 {
        return Err(
            ApiError::Validation(
                "envelope_to is required and must contain at least one recipient".to_owned(),
            ),
        );
    }
    if envelope_to.len() > max_recipients {
        return Err(
            ApiError::Validation(
                "envelope_to exceeds ".to_owned().concat(
                    decimal(max_recipients as u64).as_str(),
                ).concat(" recipients"),
            ),
        );
    }
    if !envelope_from.is_empty() {
        if let Err(e) = validate_email_field("envelope_from", envelope_from) {
            return Err(e);
        }
    }
    let mut i: usize = 0;
    while i < envelope_to.len()
        invariant
            i <= envelope_to@.len(),
            relay_shape(envelope_from@, envelope_to.deep_view(), max_recipients as nat)
                == recipients_shape(envelope_to.deep_view(), i as nat),
        decreases envelope_to.len() - i,
    {
        let field = "envelope_to[".to_owned().concat(decimal(i as u64).as_str()).concat("]");
        assert(envelope_to.deep_view()[i as int] == envelope_to@[i as int]@);
        if let Err(e) = validate_email_field(field.as_str(), envelope_to[i].as_str()) {
            return Err(e);
        }
        i += 1;
    }
    Ok(())
}

/// The API error for a message that the pipeline did not take.
pub open spec fn processing_error(err: ProcessingErrorView) -> ApiErrorView {
    match err {
        ProcessingErrorView::Reject { message } => ApiErrorView::Validation(message),
        ProcessingErrorView::TempFail { message } => ApiErrorView::Unavailable(message),
    }
}

/// The API error for a message that the pipeline did not take.
pub fn processing_to_api(err: ProcessingError) -> (r: ApiError)
    ensures
        r@ == processing_error(err@),
{
    match err {
        ProcessingError::Reject { message } => ApiError::Validation(message),
        ProcessingError::TempFail { message } => ApiError::Unavailable(message),
    }
}

/// Whoever holds `messages:ingest`, `messages:send` or `*` may ingest, and nobody
/// else.
pub proof fn who_may_ingest(scopes: Seq<Seq<char>>)
    ensures
        may_ingest(scopes) <==> scopes.contains("messages:ingest"@) || scopes.contains(
            "messages:send"@,
        ) || scopes.contains("*"@),
{
}

/// The peer of a message is the address that the request names, whoever sends the
/// request. Only where it names none does the HTTP peer stand in, and the unspecified
/// address where there is no such peer either. A text that is no address is refused
/// and repeated.
pub proof fn named_peer_is_taken(
    client_ip: Option<&str>,
    parsed: Option<IpAddr>,
    http_peer: Option<IpAddr>,
    r: Result<IpAddr, ApiError>,
)
    requires
        call_ensures(parse_peer_addr, (client_ip, parsed, http_peer), r),
    ensures
        client_ip is Some && parsed is Some ==> r is Ok && Some(r->Ok_0) == parsed,
        client_ip is Some && parsed is None ==> (r matches Err(e) && e@
            == ApiErrorView::Validation(
            "client_ip '"@ + client_ip->0@ + "' is not a valid IP address"@,
        )),
        client_ip is None && http_peer is Some ==> r is Ok && Some(r->Ok_0) == http_peer,
        client_ip is None && http_peer is None ==> r is Ok && r->Ok_0 == IpAddr::V4(0),
{
}

/// Who sends a request that names its peer does not matter to it.
pub proof fn http_peer_does_not_matter_beside_a_named_one(
    client_ip: &str,
    parsed: Option<IpAddr>,
    p: Option<IpAddr>,
    q: Option<IpAddr>,
)
    ensures
        peer_of(Some(client_ip@), parsed, p) == peer_of(Some(client_ip@), parsed, q),
        peer_of(None, parsed, p) == peer_of(None, None, p),
{
}

/// A message is completed with its peer and with nothing else: sender, recipients,
/// bytes and HELO name stay, all of them and in order.
pub proof fn resolving_changes_nothing_but_the_peer(
    pending: PendingIngest,
    parsed: Option<IpAddr>,
    http_peer: Option<IpAddr>,
    r: Result<ParsedIngest, ApiError>,
)
    requires
        call_ensures(PendingIngest::resolve, (pending, parsed, http_peer), r),
    ensures
        r matches Ok(p) ==> {
            &&& p.envelope_from@ == pending.envelope_from@
            &&& p.envelope_to.len() == pending.envelope_to.len()
            &&& forall|i: int|
                0 <= i < pending.envelope_to.len() ==> (#[trigger] p.envelope_to[i])@
                    == pending.envelope_to[i]@
            &&& p.raw@ == pending.raw@
            &&& p.helo_domain is Some <==> pending.helo_domain is Some
            &&& p.helo_domain is Some ==> p.helo_domain->0@ == pending.helo_domain->0@
        },
        pending.client_ip is Some && parsed is Some ==> r is Ok && Some(r->Ok_0.peer_addr)
            == parsed,
        pending.client_ip is None ==> r is Ok && r->Ok_0.peer_addr == (match http_peer {
            Some(addr) => addr,
            None => IpAddr::V4(0),
        }),
        pending.client_ip is Some && parsed is None ==> (r matches Err(e) && e@
            == ApiErrorView::Validation(
            "client_ip '"@ + pending.client_ip->0@ + "' is not a valid IP address"@,
        )),
{
    if let Ok(p) = r {
        assert(p.envelope_to.deep_view() == pending.envelope_to.deep_view());
        assert(p.envelope_to.deep_view().len() == p.envelope_to.len());
        assert(pending.envelope_to.deep_view().len() == pending.envelope_to.len());
        assert forall|i: int| 0 <= i < pending.envelope_to.len() implies (
        #[trigger] p.envelope_to[i])@ == pending.envelope_to[i]@ by {
            assert(p.envelope_to.deep_view()[i] == p.envelope_to[i]@);
            assert(pending.envelope_to.deep_view()[i] == pending.envelope_to[i]@);
        }
        assert(p.helo_domain.deep_view() == pending.helo_domain.deep_view());
    }
}

/// A JSON request gives its message once. As text it stands for its UTF-8 bytes, and
/// in base64 for the bytes that it decodes to, whatever they are: they need be no
/// text. A request that gives it twice, not at all, or in what is no base64 is
/// refused, each with its own text.
pub proof fn given_bytes_are_the_message(
    request: IngestRequest,
    decoded: Result<Vec<u8>, String>,
    r: Result<PendingIngest, ApiError>,
)
    requires
        call_ensures(accept_request, (request, decoded), r),
    ensures
        request.raw is Some && request.raw_base64 is None ==> (r matches Ok(p) && p.raw@
            == encode_utf8(request.raw->0@)),
        request.raw is None && request.raw_base64 is Some ==> (decoded matches Ok(bytes) ==> (
        r matches Ok(p) && p.raw@ == bytes@)),
        request.raw is None && request.raw_base64 is Some ==> (decoded matches Err(text) ==> (
        r matches Err(e) && e@ == ApiErrorView::Validation("invalid raw_base64: "@ + text@))),
        request.raw is Some && request.raw_base64 is Some ==> (r matches Err(e) && e@
            == ApiErrorView::Validation("provide either raw or raw_base64, not both"@)),
        request.raw is None && request.raw_base64 is None ==> (r matches Err(e) && e@
            == ApiErrorView::Validation("raw or raw_base64 is required"@)),
{
    assert(request.raw is Some <==> request@.raw is Some);
    assert(request.raw_base64 is Some <==> request@.raw_base64 is Some);
}

/// A JSON request goes from the bare address that it names as its sender to the bare
/// address of every recipient that it names, in order. Its client address stays as it
/// is, and so does its HELO name unless it is empty.
pub proof fn given_envelope_is_kept(
    request: IngestRequest,
    decoded: Result<Vec<u8>, String>,
    r: Result<PendingIngest, ApiError>,
)
    requires
        call_ensures(accept_request, (request, decoded), r),
        r is Ok,
    ensures
        ({
            let p = r->Ok_0;
            &&& p.envelope_from@ == addr_spec_of(request.envelope_from@)
            &&& p.envelope_to.len() == request.envelope_to.len()
            &&& forall|i: int|
                0 <= i < request.envelope_to.len() ==> (#[trigger] p.envelope_to[i])@
                    == addr_spec_of(request.envelope_to[i]@)
            &&& p.client_ip is Some <==> request.client_ip is Some
            &&& p.client_ip is Some ==> p.client_ip->0@ == request.client_ip->0@
            &&& p.helo_domain is Some <==> request.helo_domain is Some
                && request.helo_domain->0@.len() > 0
            &&& p.helo_domain is Some ==> p.helo_domain->0@ == request.helo_domain->0@
        }),
{
    let p = r->Ok_0;
    let to = request.envelope_to.deep_view();
    assert(p@.envelope_to == addr_specs_of(to));
    assert(p.envelope_to.deep_view().len() == p.envelope_to.len());
    assert(to.len() == request.envelope_to.len());
    assert forall|i: int| 0 <= i < request.envelope_to.len() implies (
    #[trigger] p.envelope_to[i])@ == addr_spec_of(request.envelope_to[i]@) by {
        assert(p.envelope_to.deep_view()[i] == p.envelope_to[i]@);
        assert(to[i] == request.envelope_to[i]@);
    }
    assert(p@.client_ip == request@.client_ip);
    assert(p@.helo_domain == non_empty(request@.helo_domain));
}

/// A body that is no JSON is refused with what is wrong with it; one that is stands
/// for the request in it, its base64 decoded without white space around it.
pub proof fn json_body_is_its_request(
    read: Result<IngestRequest, String>,
    decoded: Result<Vec<u8>, String>,
    r: Result<PendingIngest, ApiError>,
    s: Result<PendingIngest, ApiError>,
)
    requires
        call_ensures(parse_json_ingest, (read,), r),
        read matches Ok(request) ==> {
            &&& request.raw_base64 matches Some(text) ==> decoding(decoded) == base64_decoded(
                trimmed(text@),
            )
            &&& call_ensures(accept_request, (request, decoded), s)
        },
    ensures
        read is Ok ==> outcome(r) == outcome(s),
        read matches Err(text) ==> (r matches Err(e) && e@ == ApiErrorView::Validation(
            "invalid JSON: "@ + text@,
        )),
{
    if let Ok(request) = read {
        assert(request@.raw_base64 is Some <==> request.raw_base64 is Some);
    }
}

/// A header is read without the white space around its text, and one that then is
/// empty counts as none.
pub proof fn blank_header_counts_as_none(headers: &HeaderMap, name: &str, r: Option<String>)
    requires
        call_ensures(header_str, (headers, name), r),
    ensures
        r matches Some(text) ==> text@.len() > 0 && (header_text_of(
            *headers,
            name@,
        ) matches Some(whole) && text@ == trimmed(whole)),
        r is None ==> (header_text_of(*headers, name@) matches Some(whole) ==> trimmed(
            whole,
        ).len() == 0),
{
}

/// A list of recipients is read from left to right, parted by commas: of a text without
/// a comma the bare address is taken, unless it is empty, and the addresses before a
/// comma come before those behind it. None is lost and none comes twice.
pub proof fn recipients_are_parted_by_commas(x: Seq<char>, y: Seq<char>)
    ensures
        recipient_list(x + seq![','] + y) == recipient_list(x) + recipient_list(y),
        !x.contains(',') && addr_spec_of(x).len() > 0 ==> recipient_list(x) == seq![
            addr_spec_of(x),
        ],
        !x.contains(',') && addr_spec_of(x).len() == 0 ==> recipient_list(x) == Seq::<
            Seq<char>,
        >::empty(),
{
    let filled = |a: Seq<char>| a.len() > 0;
    pieces_come_one_after_the_other(x, y, ',');
    let a = addr_specs_of(pieces(x, ','));
    let b = addr_specs_of(pieces(y, ','));
    assert(addr_specs_of(pieces(x + seq![','] + y, ',')) =~= a + b);
    Seq::filter_distributes_over_add(a, b, filled);
    if !x.contains(',') {
        assert(a =~= seq![addr_spec_of(x)]);
        reveal(Seq::filter);
        assert(a.drop_last() =~= Seq::<Seq<char>>::empty());
        assert(a.drop_last().filter(filled) =~= Seq::<Seq<char>>::empty());
        assert(a.last() == addr_spec_of(x));
        assert(recipient_list(x) =~= if filled(a.last()) {
            seq![addr_spec_of(x)]
        } else {
            Seq::empty()
        });
    }
}

/// A message with its envelope in headers is the body as it is, from the bare address
/// of the sender, or from nobody, to the recipients that are listed, or to nobody.
pub proof fn enveloped_body_is_the_message(
    envelope: EnvelopeHeaders,
    body: Vec<u8>,
    r: PendingIngest,
)
    requires
        call_ensures(message_with_envelope, (envelope, body), r),
    ensures
        r.raw@ == body@,
        envelope.envelope_from matches Some(text) ==> r.envelope_from@ == addr_spec_of(text@),
        envelope.envelope_from is None ==> r.envelope_from@.len() == 0,
        envelope.envelope_to matches Some(text) ==> r.envelope_to.deep_view() == recipient_list(
            text@,
        ),
        envelope.envelope_to is None ==> r.envelope_to.len() == 0,
        r.client_ip is Some <==> envelope.client_ip is Some,
        r.client_ip is Some ==> r.client_ip->0@ == envelope.client_ip->0@,
        r.helo_domain is Some <==> envelope.helo_domain is Some,
        r.helo_domain is Some ==> r.helo_domain->0@ == envelope.helo_domain->0@,
{
    assert(r@.envelope_from == enveloped_message(envelope@, body@).envelope_from);
    assert(r@.envelope_to == enveloped_message(envelope@, body@).envelope_to);
    assert(r.envelope_to.deep_view().len() == r.envelope_to.len());
    assert(r@.client_ip == envelope@.client_ip);
    assert(r@.helo_domain == envelope@.helo_domain);
}

/// Each part of the envelope stands in the header of its name.
pub proof fn envelope_stands_in_its_headers(headers: &HeaderMap, body: Vec<u8>, r: PendingIngest)
    requires
        call_ensures(parse_rfc822_ingest, (headers, body), r),
    ensures
        r.raw@ == body@,
        header_str_of(*headers, "x-envelope-from"@) matches Some(text) ==> r.envelope_from@
            == addr_spec_of(text),
        header_str_of(*headers, "x-envelope-from"@) is None ==> r.envelope_from@.len() == 0,
        header_str_of(*headers, "x-envelope-to"@) matches Some(text) ==> r.envelope_to.deep_view()
            == recipient_list(text),
        header_str_of(*headers, "x-envelope-to"@) is None ==> r.envelope_to.deep_view().len() == 0,
        r.client_ip.deep_view() == header_str_of(*headers, "x-client-ip"@),
        r.helo_domain.deep_view() == header_str_of(*headers, "x-helo-domain"@),
{
    assert(r@.raw == body@);
    assert(r@.envelope_to == enveloped_message(envelope_headers_of(*headers), body@).envelope_to);
}

/// Case, parameters and white space of a content type do not matter: what counts is
/// the text before the first semicolon.
pub proof fn media_type_decides_the_format(
    before: Seq<char>,
    name: Seq<char>,
    after: Seq<char>,
    parameters: Seq<char>,
)
    requires
        forall|i: int| 0 <= i < before.len() ==> is_white_space(#[trigger] before[i]),
        forall|i: int| 0 <= i < after.len() ==> is_white_space(#[trigger] after[i]),
        name.len() > 0 ==> !is_white_space(name.first()) && !is_white_space(name.last()),
        !name.contains(';'),
    ensures
        ({
            let bare = before + name + after;
            let format = ingest_format(Some(bare));
            let lowered = ascii_lowered(name);
            &&& ingest_format(Some(bare + seq![';'] + parameters)) == format
            &&& format == Ok::<IngestFormat, ApiErrorView>(IngestFormat::Json) <==> lowered
                == "application/json"@ || lowered == "text/json"@
            &&& lowered == "message/rfc822"@ <==> format == Ok::<IngestFormat, ApiErrorView>(
                IngestFormat::Rfc822,
            )
            &&& format matches Err(e) ==> e == ApiErrorView::Validation(
                "unsupported Content-Type '"@ + lowered
                    + "': use application/json or message/rfc822"@,
            )
        }),
        ingest_format(None) == Ok::<IngestFormat, ApiErrorView>(IngestFormat::Json),
{
    let bare = before + name + after;
    assert(!bare.contains(';')) by {
        if bare.contains(';') {
            let i = choose|i: int| 0 <= i < bare.len() && bare[i] == ';';
            if i < before.len() {
                assert(is_white_space(before[i]));
            } else if i < before.len() + name.len() {
                assert(name[i - before.len()] == ';');
            } else {
                assert(is_white_space(after[i - before.len() - name.len()]));
            }
        }
    }
    text_before_a_separator(bare, ';', parameters);
    space_around_is_dropped(before, name, after);
    lemma_media_names();
    lemma_no_content_type();
}

/// The names of the media types differ.
proof fn lemma_media_names()
    ensures
        "application/json"@ != "message/rfc822"@,
        "text/json"@ != "message/rfc822"@,
{
    reveal_strlit("application/json");
    reveal_strlit("text/json");
    reveal_strlit("message/rfc822");
    assert("application/json"@[0] != "message/rfc822"@[0]);
    assert("text/json"@[0] != "message/rfc822"@[0]);
}

/// Without a content type a body counts as JSON.
proof fn lemma_no_content_type()
    ensures
        ingest_format(None) == Ok::<IngestFormat, ApiErrorView>(IngestFormat::Json),
{
    let json = "application/json"@;
    reveal_strlit("application/json");
    let none = Seq::<char>::empty();
    assert(!json.contains(';'));
    text_before_a_separator(json, ';', none);
    space_around_is_dropped(none, json, none);
    assert(none + json + none =~= json);
    assert(ascii_lowered(json) =~= json);
}

/// A JSON body is handed on as it came, a message with the envelope of its headers,
/// and a body in another format is refused.
pub proof fn body_is_read_by_its_format(
    headers: &HeaderMap,
    body: Vec<u8>,
    r: Result<IngestBody, ApiError>,
    message: PendingIngest,
)
    requires
        call_ensures(parse_ingest_body, (headers, body), r),
        call_ensures(parse_rfc822_ingest, (headers, body), message),
    ensures
        ({
            let format = ingest_format(header_text_of(*headers, "content-type"@));
            &&& format matches Ok(IngestFormat::Json) ==> (r matches Ok(IngestBody::Json(bytes))
                && bytes@ == body@)
            &&& format matches Ok(IngestFormat::Rfc822) ==> (r matches Ok(
                IngestBody::Message(pending),
            ) && pending@ == message@)
            &&& format matches Err(e) ==> (r matches Err(f) && f@ == e)
        }),
{
}

/// The right to ingest comes with `messages:ingest`, with `messages:send` and with
/// `*`, and with nothing else.
pub proof fn who_is_let_in(auth: &AuthContext, r: Result<(), ApiError>)
    requires
        call_ensures(require_ingest_scope, (auth,), r),
    ensures
        r is Ok <==> exists|i: int|
            0 <= i < auth.scopes.len() && ((#[trigger] auth.scopes[i])@ == "messages:ingest"@
                || auth.scopes[i]@ == "messages:send"@ || auth.scopes[i]@ == "*"@),
        r matches Err(e) ==> e@ == ApiErrorView::Auth("missing required scope: messages:ingest"@),
{
    let held = auth.scopes.deep_view();
    who_may_ingest(held);
    if r is Ok {
        let i = choose|i: int|
            0 <= i < held.len() && (held[i] == "messages:ingest"@ || held[i] == "messages:send"@
                || held[i] == "*"@);
        assert(auth.scopes[i]@ == held[i]);
    } else {
        assert forall|i: int| 0 <= i < auth.scopes.len() implies (#[trigger] auth.scopes[i])@
            != "messages:ingest"@ && auth.scopes[i]@ != "messages:send"@ && auth.scopes[i]@
            != "*"@ by {
            assert(held[i] == auth.scopes[i]@);
            assert(held.contains(held[i]));
        }
    }
}

/// An envelope is refused for the first thing that is wrong with it: no recipient, too
/// many, a sender that is no address, or the first recipient that is none, by its
/// place in the list. The null sender is right.
pub proof fn wrong_envelope_is_named(
    envelope_from: &str,
    envelope_to: &[String],
    max_recipients: usize,
    r: Result<(), ApiError>,
    i: int,
)
    requires
        call_ensures(reject_open_relay_shape, (envelope_from, envelope_to, max_recipients), r),
    ensures
        ({
            let n = envelope_to@.len();
            let sender_is_right = envelope_from@.len() == 0 || is_address(envelope_from@);
            &&& n == 0 ==> (r matches Err(e) && e@ == ApiErrorView::Validation(
                "envelope_to is required and must contain at least one recipient"@,
            ))
            &&& n > max_recipients && n > 0 ==> (r matches Err(e) && e@
                == ApiErrorView::Validation(
                "envelope_to exceeds "@ + decimal_of(max_recipients as nat) + " recipients"@,
            ))
            &&& 0 < n <= max_recipients && !sender_is_right ==> (r matches Err(e) && e@
                == ApiErrorView::Validation(
                "envelope_from"@ + " '"@ + envelope_from@ + "' is not a valid email address"@,
            ))
            &&& 0 < n <= max_recipients && sender_is_right && 0 <= i < n && !is_address(
                envelope_to@[i]@,
            ) && (forall|j: int| 0 <= j < i ==> is_address((#[trigger] envelope_to@[j])@)) ==> (
            r matches Err(e) && e@ == ApiErrorView::Validation(
                "envelope_to["@ + decimal_of(i as nat) + "]"@ + " '"@ + envelope_to@[i]@
                    + "' is not a valid email address"@,
            ))
            &&& 0 < n <= max_recipients && sender_is_right && (forall|j: int|
                0 <= j < n ==> is_address((#[trigger] envelope_to@[j])@)) ==> r is Ok
        }),
{
    let to = envelope_to.deep_view();
    assert(to.len() == envelope_to@.len());
    assert forall|j: int| 0 <= j < to.len() implies #[trigger] to[j] == envelope_to@[j]@ by {}
    if 0 <= i < to.len() && !is_address(to[i]) && (forall|j: int|
        0 <= j < i ==> is_address((#[trigger] envelope_to@[j])@)) {
        assert forall|j: int| 0 <= j < i implies is_address(#[trigger] to[j]) by {
            assert(is_address(envelope_to@[j]@));
        }
        lemma_first_wrong_recipient(to, 0, i as nat);
    }
    if forall|j: int| 0 <= j < to.len() ==> is_address((#[trigger] envelope_to@[j])@) {
        assert forall|j: int| 0 <= j < to.len() implies is_address(#[trigger] to[j]) by {
            assert(is_address(envelope_to@[j]@));
        }
        lemma_right_recipients(to, 0);
    }
}

/// The first recipient that is no address decides.
proof fn lemma_first_wrong_recipient(to: Seq<Seq<char>>, from: nat, i: nat)
    requires
        from <= i < to.len(),
        !is_address(to[i as int]),
        forall|j: int| from <= j < i ==> is_address(#[trigger] to[j]),
    ensures
        recipients_shape(to, from) == email_field(recipient_field(i), to[i as int]),
    decreases i - from,
{
    if from < i {
        assert(is_address(to[from as int]));
        lemma_first_wrong_recipient(to, from + 1, i);
    }
}

/// Recipients that are addresses are right.
proof fn lemma_right_recipients(to: Seq<Seq<char>>, from: nat)
    requires
        forall|j: int| from <= j < to.len() ==> is_address(#[trigger] to[j]),
    ensures
        recipients_shape(to, from) is Ok,
    decreases to.len() - from,
{
    if from < to.len() {
        assert(is_address(to[from as int]));
        lemma_right_recipients(to, from + 1);
    }
}

/// What the pipeline refuses for good is the request's fault, what it refuses for now
/// may succeed later, and either way the caller is told what the pipeline said.
pub proof fn refusals_of_the_pipeline_are_passed_on(err: ProcessingError, r: ApiError)
    requires
        call_ensures(processing_to_api, (err,), r),
    ensures
        err matches ProcessingError::Reject { message } ==> r@ == ApiErrorView::Validation(
            message@,
        ),
        err matches ProcessingError::TempFail { message } ==> r@ == ApiErrorView::Unavailable(
            message@,
        ),
{
}

} // verus!
