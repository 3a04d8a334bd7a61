//! HTTP ingest into the inbound pipeline: the course of a request.
//!
//! [`start_ingest`] gives the first [`IngestStep`]. A step says what its caller
//! is to do, such as to ask the domain store or to hand a message to the
//! pipeline, and carries what is needed to go on: its `on_` method, or
//! [`on_processed`], takes what came of it and gives the next step, until the
//! request is [`IngestStep::Done`].

use std::collections::HashMap;

use axum::http::{HeaderMap, HeaderValue};
use vstd::prelude::*;
use vstd::string::*;

use crate::address::{domain_follows_the_last_at, domain_of, parse_from_domain};
use crate::auth::{AuthContext, AuthContextView, TenantId};
use crate::errors::{outcome, ApiError, ApiErrorView, SentioError, SentioErrorView};
use crate::ingest::{
    ingest_body, ingest_scope, json_message, parse_ingest_body, parse_json_ingest,
    processing_error, processing_to_api, reading, reject_open_relay_shape, relay_shape,
    require_ingest_scope, resolved, IngestBody, IngestBodyView, IngestRequest,
    ParsedIngest, ParsedIngestView, PendingIngest, PendingIngestView,
};
use crate::message::{
    InboundMessage, InboundMessageView, IpAddr, MessageId, ProcessingError, ProcessingErrorView,
    ProcessingOutcome, ProcessingOutcomeView,
};
use crate::text::{decimal, decimal_of};

verus! {

/// What the configuration says of ingest.
#[derive(Debug)]
pub struct IngestSettings {
    pub hostname: String,
    pub max_recipients_per_message: u32,
    pub max_message_size_mb: u32,
    pub max_received_headers: u32,
    /// Whether this process runs the inbound pipeline.
    pub processor_configured: bool,
}

/// What [`IngestSettings`] say.
pub struct IngestSettingsView {
    pub hostname: Seq<char>,
    pub max_recipients_per_message: u32,
    pub max_message_size_mb: u32,
    pub max_received_headers: u32,
    pub processor_configured: bool,
}

impl View for IngestSettings {
    type V = IngestSettingsView;

    open spec fn view(&self) -> IngestSettingsView {
        IngestSettingsView {
            hostname: self.hostname@,
            max_recipients_per_message: self.max_recipients_per_message,
            max_message_size_mb: self.max_message_size_mb,
            max_received_headers: self.max_received_headers,
            processor_configured: self.processor_configured,
        }
    }
}

/// The answer to an accepted message.
#[derive(Debug)]
pub struct IngestResponse {
    pub id: MessageId,
    pub queue_id: String,
    pub status: String,
}

/// What an [`IngestResponse`] says.
pub struct IngestResponseView {
    pub id: MessageId,
    pub queue_id: Seq<char>,
    pub status: Seq<char>,
}

impl View for IngestResponse {
    type V = IngestResponseView;

    open spec fn view(&self) -> IngestResponseView {
        IngestResponseView { id: self.id, queue_id: self.queue_id@, status: self.status@ }
    }
}

/// Why a request is not answered with an [`IngestResponse`].
#[derive(Debug)]
pub enum IngestFailure {
    /// The request is refused.
    Api(ApiError),
    /// The domain store failed.
    Store(SentioError),
}

/// What an [`IngestFailure`] says.
pub enum IngestFailureView {
    Api(ApiErrorView),
    Store(SentioErrorView),
}

impl View for IngestFailure {
    type V = IngestFailureView;

    open spec fn view(&self) -> IngestFailureView {
        match self {
            IngestFailure::Api(e) => IngestFailureView::Api(e@),
            IngestFailure::Store(e) => IngestFailureView::Store(e@),
        }
    }
}

/// What is stored of a domain.
#[derive(Debug, Clone, Copy, PartialEq, Eq, Structural)]
pub struct DomainRecord {
    pub use_for_receiving: bool,
}

/// A question for the domain store.
#[derive(Debug)]
pub enum DomainQuery {
    /// Is `domain` hosted for receiving, whoever the tenant?
    Hosted { domain: String },
    /// The domain of that name that belongs to the tenant.
    Owned { tenant_id: TenantId, domain: String },
}

/// What a [`DomainQuery`] says.
pub enum DomainQueryView {
    Hosted { domain: Seq<char> },
    Owned { tenant_id: TenantId, domain: Seq<char> },
}

impl View for DomainQuery {
    type V = DomainQueryView;

    open spec fn view(&self) -> DomainQueryView {
        match self {
            DomainQuery::Hosted { domain } => DomainQueryView::Hosted { domain: domain@ },
            DomainQuery::Owned { tenant_id, domain } => DomainQueryView::Owned {
                tenant_id: *tenant_id,
                domain: domain@,
            },
        }
    }
}

/// Whose domains a request may send to: everyone's with the shared ingest token,
/// else the tenant's own.
pub open spec fn domain_query(auth: AuthContextView, domain: Seq<char>) -> DomainQueryView {
    if auth.shared_ingest {
        DomainQueryView::Hosted { domain }
    } else {
        DomainQueryView::Owned { tenant_id: auth.tenant_id, domain }
    }
}

/// The question to ask for a recipient.
pub open spec fn recipient_query(auth: AuthContextView, rcpt: Seq<char>) -> Result<
    DomainQueryView,
    ApiErrorView,
> {
    match domain_of(rcpt) {
        Some(domain) => Ok(domain_query(auth, domain)),
        None => Err(
            ApiErrorView::Validation("invalid recipient '"@ + rcpt + "': missing domain"@),
        ),
    }
}

/// What the domain store's answer to `query` means for a recipient. A domain of
/// the tenant must be enabled for receiving; one that is hosted at all already
/// is. A missing row is told by `None` or by `NotFound`.
pub open spec fn domain_verdict(
    query: DomainQueryView,
    found: Result<Option<DomainRecord>, SentioErrorView>,
) -> Result<(), IngestFailureView> {
    match query {
        DomainQueryView::Hosted { domain } => match found {
            Ok(Some(_)) => Ok(()),
            Ok(None) => Err(
                IngestFailureView::Api(
                    ApiErrorView::Validation(
                        "recipient domain '"@ + domain + "' is not hosted for receiving"@,
                    ),
                ),
            ),
            Err(e) => Err(IngestFailureView::Store(e)),
        },
        DomainQueryView::Owned { tenant_id, domain } => match found {
            Ok(Some(record)) => if record.use_for_receiving {
                Ok(())
            } else {
                Err(
                    IngestFailureView::Api(
                        ApiErrorView::Validation(
                            "domain '"@ + domain + "' is not enabled for receiving"@,
                        ),
                    ),
                )
            },
            Ok(None) | Err(SentioErrorView::NotFound(_)) => Err(
                IngestFailureView::Api(
                    ApiErrorView::Validation(
                        "recipient domain '"@ + domain + "' is not hosted by this tenant"@,
                    ),
                ),
            ),
            Err(e) => Err(IngestFailureView::Store(e)),
        },
    }
}

/// The question to ask for a recipient.
pub fn query_recipient(auth: &AuthContext, rcpt: &str) -> (r: Result<DomainQuery, ApiError>)
    ensures
        outcome(r) == recipient_query(auth@, rcpt@),
{
    match parse_from_domain(rcpt) {
        Some(domain) => if auth.shared_ingest {
            Ok(DomainQuery::Hosted { domain })
        } else {
            Ok(DomainQuery::Owned { tenant_id: auth.tenant_id, domain })
        },
        None => Err(
            ApiError::Validation(
                "invalid recipient '".to_owned().concat(rcpt).concat("': missing domain"),
            ),
        ),
    }
}

/// A verdict on a recipient, its error taken by its view.
pub open spec fn verdict(r: Result<(), IngestFailure>) -> Result<(), IngestFailureView> {
    match r {
        Ok(_) => Ok(()),
        Err(e) => Err(e@),
    }
}

/// What the domain store's answer to `query` means for a recipient.
pub fn judge_domain(
    query: &DomainQuery,
    found: Result<Option<DomainRecord>, SentioError>,
) -> (r: Result<(), IngestFailure>)
    ensures
        verdict(r) == domain_verdict(query@, copied(found)),
{
    match query {
        DomainQuery::Hosted { domain } => match found {
            Ok(Some(_)) => Ok(()),
            Ok(None) => Err(
                IngestFailure::Api(
                    ApiError::Validation(
                        "recipient domain '".to_owned().concat(domain.as_str()).concat(
                            "' is not hosted for receiving",
                        ),
                    ),
                ),
            ),
            Err(e) => Err(IngestFailure::Store(e)),
        },
        DomainQuery::Owned { tenant_id: _, domain } => match found {
            Ok(Some(record)) => if record.use_for_receiving {
                Ok(())
            } else {
                Err(
                    IngestFailure::Api(
                        ApiError::Validation(
                            "domain '".to_owned().concat(domain.as_str()).concat(
                                "' is not enabled for receiving",
                            ),
                        ),
                    ),
                )
            },
            Ok(None) | Err(SentioError::NotFound(_)) => Err(
                IngestFailure::Api(
                    ApiError::Validation(
                        "recipient domain '".to_owned().concat(domain.as_str()).concat(
                            "' is not hosted by this tenant",
                        ),
                    ),
                ),
            ),
            Err(e) => Err(IngestFailure::Store(e)),
        },
    }
}

/// An answer of the domain store, its error taken by its view.
pub open spec fn copied(found: Result<Option<DomainRecord>, SentioError>) -> Result<
    Option<DomainRecord>,
    SentioErrorView,
> {
    match found {
        Ok(record) => Ok(record),
        Err(e) => Err(e@),
    }
}

/// What holds throughout a request.
#[derive(Debug)]
pub struct IngestContext {
    pub auth: AuthContext,
    pub settings: IngestSettings,
    /// The peer of the HTTP connection.
    pub http_peer: Option<IpAddr>,
}

/// What an [`IngestContext`] says.
pub struct IngestContextView {
    pub auth: AuthContextView,
    pub settings: IngestSettingsView,
    pub http_peer: Option<IpAddr>,
}

impl View for IngestContext {
    type V = IngestContextView;

    open spec fn view(&self) -> IngestContextView {
        IngestContextView {
            auth: self.auth@,
            settings: self.settings@,
            http_peer: self.http_peer,
        }
    }
}

/// A message whose peer address is still to be read.
#[derive(Debug)]
pub struct PeerCheck {
    pub context: IngestContext,
    pub pending: PendingIngest,
}

/// A message of which the recipients before `after` have been asked for, the
/// last of them just now.
#[derive(Debug)]
pub struct RecipientCheck {
    pub context: IngestContext,
    pub parsed: ParsedIngest,
    pub after: usize,
    /// What is asked of the domain store.
    pub query: DomainQuery,
}

/// What to do next for an ingest request.
#[derive(Debug)]
pub enum IngestStep {
    /// Read an [`IngestRequest`] from `body` as JSON and go on with
    /// [`IngestContext::on_json`].
    ReadJson { body: Vec<u8>, context: IngestContext },
    /// Read `text` as an IP address and go on with [`PeerCheck::on_address`].
    ReadAddress { text: String, check: PeerCheck },
    /// Ask the domain store the query of the check and go on with
    /// [`RecipientCheck::on_domain`].
    AskDomain(RecipientCheck),
    /// Hand the message to the pipeline and end with [`on_processed`].
    Deliver(InboundMessage),
    /// The request has ended.
    Done(Result<IngestResponse, IngestFailure>),
}

/// What an [`IngestStep`] says.
pub enum IngestStepView {
    ReadJson { body: Seq<u8>, context: IngestContextView },
    ReadAddress { text: Seq<char>, context: IngestContextView, pending: PendingIngestView },
    AskDomain {
        query: DomainQueryView,
        context: IngestContextView,
        parsed: ParsedIngestView,
        after: nat,
    },
    Deliver(InboundMessageView),
    Done(Result<IngestResponseView, IngestFailureView>),
}

/// The end of a request, response and failure taken by their views.
pub open spec fn ended(r: Result<IngestResponse, IngestFailure>) -> Result<
    IngestResponseView,
    IngestFailureView,
> {
    match r {
        Ok(response) => Ok(response@),
        Err(e) => Err(e@),
    }
}

impl View for IngestStep {
    type V = IngestStepView;

    open spec fn view(&self) -> IngestStepView {
        match self {
            IngestStep::ReadJson { body, context } => IngestStepView::ReadJson {
                body: body@,
                context: context@,
            },
            IngestStep::ReadAddress { text, check } => IngestStepView::ReadAddress {
                text: text@,
                context: check.context@,
                pending: check.pending@,
            },
            IngestStep::AskDomain(check) => IngestStepView::AskDomain {
                query: check.query@,
                context: check.context@,
                parsed: check.parsed@,
                after: check.after as nat,
            },
            IngestStep::Deliver(message) => IngestStepView::Deliver(message@),
            IngestStep::Done(r) => IngestStepView::Done(ended(*r)),
        }
    }
}

/// The end of a request that is refused.
pub open spec fn refused(e: ApiErrorView) -> IngestStepView {
    IngestStepView::Done(Err(IngestFailureView::Api(e)))
}

/// Whether a message of `len` bytes is within a limit of `mb` megabytes.
pub open spec fn within_size(len: nat, mb: u32) -> bool {
    len <= mb * 1024 * 1024
}

/// The message for the pipeline.
pub open spec fn inbound_message(context: IngestContextView, parsed: ParsedIngestView) -> InboundMessageView {
    InboundMessageView {
        raw_data: parsed.raw,
        envelope_from: parsed.envelope_from,
        envelope_to: parsed.envelope_to,
        peer_addr: parsed.peer_addr,
        client_domain: parsed.helo_domain,
        server_hostname: context.settings.hostname,
        authenticated_user: None,
        tls_active: false,
        max_received_headers: context.settings.max_received_headers,
        dsn_ret: None,
        dsn_envid: None,
        dsn_notify: Map::empty(),
        dsn_orcpt: Map::empty(),
    }
}

/// The step for a message whose recipients are all hosted.
pub open spec fn delivery_step(context: IngestContextView, parsed: ParsedIngestView) -> IngestStepView {
    if !within_size(parsed.raw.len(), context.settings.max_message_size_mb) {
        refused(
            ApiErrorView::Validation(
                "message exceeds max size of "@ + decimal_of(
                    context.settings.max_message_size_mb as nat,
                ) + " MB"@,
            ),
        )
    } else if !context.settings.processor_configured {
        refused(ApiErrorView::Unavailable("inbound ingest is not configured on this process"@))
    } else {
        IngestStepView::Deliver(inbound_message(context, parsed))
    }
}

/// The step for a message of which the recipients before `next` are hosted.
pub open spec fn recipient_step(
    context: IngestContextView,
    parsed: ParsedIngestView,
    next: nat,
) -> IngestStepView {
    if next >= parsed.envelope_to.len() {
        delivery_step(context, parsed)
    } else {
        match recipient_query(context.auth, parsed.envelope_to[next as int]) {
            Err(e) => refused(e),
            Ok(query) => IngestStepView::AskDomain {
                query,
                context,
                parsed,
                after: next + 1,
            },
        }
    }
}

/// The step for a message with its envelope.
pub open spec fn message_step(context: IngestContextView, parsed: ParsedIngestView) -> IngestStepView {
    if parsed.raw.len() == 0 {
        refused(ApiErrorView::Validation("raw message is empty"@))
    } else {
        match relay_shape(
            parsed.envelope_from,
            parsed.envelope_to,
            context.settings.max_recipients_per_message as nat,
        ) {
            Err(e) => refused(e),
            Ok(_) => recipient_step(context, parsed, 0),
        }
    }
}

/// The step for a message, once its peer address was read, if it names one.
pub open spec fn address_step(
    context: IngestContextView,
    pending: PendingIngestView,
    parsed_ip: Option<IpAddr>,
) -> IngestStepView {
    match resolved(pending, parsed_ip, context.http_peer) {
        Err(e) => refused(e),
        Ok(parsed) => message_step(context, parsed),
    }
}

/// The step for what was made of the body.
pub open spec fn pending_step(
    context: IngestContextView,
    pending: Result<PendingIngestView, ApiErrorView>,
) -> IngestStepView {
    match pending {
        Err(e) => refused(e),
        Ok(pending) => match pending.client_ip {
            Some(text) => IngestStepView::ReadAddress { text, context, pending },
            None => address_step(context, pending, None),
        },
    }
}

/// The first step of a request.
pub open spec fn first_ingest_step(
    context: IngestContextView,
    headers: HeaderMap<HeaderValue>,
    body: Seq<u8>,
) -> IngestStepView {
    match ingest_scope(context.auth.scopes) {
        Err(e) => refused(e),
        Ok(_) => match ingest_body(headers, body) {
            Err(e) => refused(e),
            Ok(IngestBodyView::Json(body)) => IngestStepView::ReadJson { body, context },
            Ok(IngestBodyView::Message(pending)) => pending_step(context, Ok(pending)),
        },
    }
}

/// The answer to a request whose message went to the pipeline.
pub open spec fn processed(
    result: Result<ProcessingOutcomeView, ProcessingErrorView>,
) -> Result<IngestResponseView, IngestFailureView> {
    match result {
        Ok(outcome) => Ok(
            IngestResponseView {
                id: outcome.message_id,
                queue_id: outcome.queue_id,
                status: "accepted"@,
            },
        ),
        Err(e) => Err(IngestFailureView::Api(processing_error(e))),
    }
}

/// The step after the store answered for a recipient.
pub open spec fn verdict_step(
    verdict: Result<(), IngestFailureView>,
    context: IngestContextView,
    parsed: ParsedIngestView,
    after: nat,
) -> IngestStepView {
    match verdict {
        Err(e) => IngestStepView::Done(Err(e)),
        Ok(_) => recipient_step(context, parsed, after),
    }
}

/// A request that is refused.
fn refuse(e: ApiError) -> (r: IngestStep)
    ensures
        r@ == refused(e@),
{
    IngestStep::Done(Err(IngestFailure::Api(e)))
}

impl IngestContext {
    /// Goes on with a message whose recipients are all hosted.
    fn deliver(self, parsed: ParsedIngest) -> (r: IngestStep)
        ensures
            r@ == delivery_step(self@, parsed@),
    {
        let limit: u64 = self.settings.max_message_size_mb as u64 * 1024 * 1024;
        if parsed.raw.len() as u64 > limit {
            return refuse(
                ApiError::Validation(
                    "message exceeds max size of ".to_owned().concat(
                        decimal(self.settings.max_message_size_mb as u64).as_str(),
                    ).concat(" MB"),
                ),
            );
        }
        if !self.settings.processor_configured {
            return refuse(
                ApiError::Unavailable(
                    "inbound ingest is not configured on this process".to_owned(),
                ),
            );
        }
        let message = InboundMessage {
            raw_data: parsed.raw,
            envelope_from: parsed.envelope_from,
            envelope_to: parsed.envelope_to,
            peer_addr: parsed.peer_addr,
            client_domain: parsed.helo_domain,
            server_hostname: self.settings.hostname,
            // Unset on purpose: HTTP authentication is the API bearer, not SMTP
            // AUTH, and a user here would divert to outbound submission.
            authenticated_user: None,
            tls_active: false,
            max_received_headers: self.settings.max_received_headers,
            dsn_ret: None,
            dsn_envid: None,
            dsn_notify: HashMap::new(),
            dsn_orcpt: HashMap::new(),
        };
        IngestStep::Deliver(message)
    }

    /// Goes on with a message of which the recipients before `next` are hosted.
    fn check_recipient(self, parsed: ParsedIngest, next: usize) -> (r: IngestStep)
        ensures
            r@ == recipient_step(self@, parsed@, next as nat),
    {
        if next >= parsed.envelope_to.len() {
            return self.deliver(parsed);
        }
        let rcpt = parsed.envelope_to[next].as_str();
        assert(parsed@.envelope_to[next as int] == rcpt@);
        let query = match query_recipient(&self.auth, rcpt) {
            Err(e) => {
                return refuse(e);
            },
            Ok(query) => query,
        };
        IngestStep::AskDomain(RecipientCheck { context: self, parsed, after: next + 1, query })
    }

    /// Goes on with a message with its envelope.
    fn check_message(self, parsed: ParsedIngest) -> (r: IngestStep)
        ensures
            r@ == message_step(self@, parsed@),
    {
        if parsed.raw.len() == 0 {
            return refuse(ApiError::Validation("raw message is empty".to_owned()));
        }
        match reject_open_relay_shape(
            parsed.envelope_from.as_str(),
            parsed.envelope_to.as_slice(),
            self.settings.max_recipients_per_message as usize,
        ) {
            Err(e) => refuse(e),
            Ok(_) => self.check_recipient(parsed, 0),
        }
    }

    /// Goes on with what was made of the body.
    fn check_pending(self, pending: Result<PendingIngest, ApiError>) -> (r: IngestStep)
        ensures
            r@ == pending_step(self@, outcome(pending)),
    {
        let pending = match pending {
            Err(e) => {
                return refuse(e);
            },
            Ok(pending) => pending,
        };
        let text = match &pending.client_ip {
            Some(text) => Some(text.as_str().to_owned()),
            None => None,
        };
        let check = PeerCheck { context: self, pending };
        match text {
            Some(text) => IngestStep::ReadAddress { text, check },
            None => check.on_address(None),
        }
    }

    /// Goes on with what was read from the body as JSON.
    pub fn on_json(self, read: Result<IngestRequest, String>) -> (r: IngestStep)
        ensures
            r@ == pending_step(self@, json_message(reading(read))),
    {
        self.check_pending(parse_json_ingest(read))
    }
}

impl PeerCheck {
    /// Goes on with what reading the peer address gave.
    pub fn on_address(self, parsed_ip: Option<IpAddr>) -> (r: IngestStep)
        ensures
            r@ == address_step(self.context@, self.pending@, parsed_ip),
    {
        match self.pending.resolve(parsed_ip, self.context.http_peer) {
            Err(e) => refuse(e),
            Ok(parsed) => self.context.check_message(parsed),
        }
    }
}

impl RecipientCheck {
    /// Goes on with the domain store's answer.
    pub fn on_domain(self, found: Result<Option<DomainRecord>, SentioError>) -> (r: IngestStep)
        ensures
            r@ == verdict_step(
                domain_verdict(self.query@, copied(found)),
                self.context@,
                self.parsed@,
                self.after as nat,
            ),
    {
        match judge_domain(&self.query, found) {
            Err(e) => IngestStep::Done(Err(e)),
            Ok(_) => self.context.check_recipient(self.parsed, self.after),
        }
    }
}

/// Starts an ingest request.
pub fn start_ingest(context: IngestContext, headers: &HeaderMap, body: Vec<u8>) -> (r: IngestStep)
    ensures
        r@ == first_ingest_step(context@, *headers, body@),
{
    if let Err(e) = require_ingest_scope(&context.auth) {
        return refuse(e);
    }
    match parse_ingest_body(headers, body) {
        Err(e) => refuse(e),
        Ok(IngestBody::Json(body)) => IngestStep::ReadJson { body, context },
        Ok(IngestBody::Message(pending)) => context.check_pending(Ok(pending)),
    }
}

/// A result of the pipeline, outcome and error taken by their views.
pub open spec fn processing(r: Result<ProcessingOutcome, ProcessingError>) -> Result<
    ProcessingOutcomeView,
    ProcessingErrorView,
> {
    match r {
        Ok(outcome) => Ok(outcome@),
        Err(e) => Err(e@),
    }
}

/// Ends a request whose message went to the pipeline.
pub fn on_processed(result: Result<ProcessingOutcome, ProcessingError>) -> (r: Result<
    IngestResponse,
    IngestFailure,
>)
    ensures
        ended(r) == processed(processing(result)),
{
    match result {
        Ok(outcome) => Ok(
            IngestResponse {
                id: outcome.message_id,
                queue_id: outcome.queue_id,
                status: "accepted".to_owned(),
            },
        ),
        Err(e) => Err(IngestFailure::Api(processing_to_api(e))),
    }
}

/// The settings and the context of a request are taken as they are.
pub proof fn context_is_taken_as_it_is(context: IngestContext)
    ensures
        context@.settings.hostname == context.settings.hostname@,
        context@.settings.max_recipients_per_message
            == context.settings.max_recipients_per_message,
        context@.settings.max_message_size_mb == context.settings.max_message_size_mb,
        context@.settings.max_received_headers == context.settings.max_received_headers,
        context@.settings.processor_configured == context.settings.processor_configured,
        context@.auth.tenant_id == context.auth.tenant_id,
        context@.auth.scopes == context.auth.scopes.deep_view(),
        context@.auth.shared_ingest == context.auth.shared_ingest,
        context@.http_peer == context.http_peer,
{
}

/// A message says to the pipeline what its fields hold.
pub proof fn message_is_taken_as_it_is(m: InboundMessage)
    ensures
        m@.raw_data == m.raw_data@,
        m@.envelope_from == m.envelope_from@,
        m@.envelope_to == m.envelope_to.deep_view(),
        m@.peer_addr == m.peer_addr,
        m@.client_domain == m.client_domain.deep_view(),
        m@.server_hostname == m.server_hostname@,
        m@.authenticated_user == m.authenticated_user.deep_view(),
        m@.tls_active == m.tls_active,
        m@.max_received_headers == m.max_received_headers,
        m@.dsn_ret == m.dsn_ret.deep_view(),
        m@.dsn_envid == m.dsn_envid.deep_view(),
        m@.dsn_notify == m.dsn_notify@,
        m@.dsn_orcpt == m.dsn_orcpt@,
{
}

/// The domain of a recipient, what follows its last `@`, is looked for among the
/// tenant's own, and with the shared ingest token among everyone's. A recipient
/// without a domain is refused and repeated.
pub proof fn recipient_is_looked_for_by_its_domain(
    auth: &AuthContext,
    rcpt: &str,
    local: Seq<char>,
    domain: Seq<char>,
    r: Result<DomainQuery, ApiError>,
)
    requires
        call_ensures(query_recipient, (auth, rcpt), r),
        !domain.contains('@'),
    ensures
        rcpt@ == local + seq!['@'] + domain && domain.len() > 0 && auth.shared_ingest ==> (
        r matches Ok(DomainQuery::Hosted { domain: d }) && d@ == domain),
        rcpt@ == local + seq!['@'] + domain && domain.len() > 0 && !auth.shared_ingest ==> (
        r matches Ok(DomainQuery::Owned { tenant_id, domain: d }) && d@ == domain && tenant_id
            == auth.tenant_id),
        rcpt@ == local + seq!['@'] || !rcpt@.contains('@') ==> (r matches Err(e) && e@
            == ApiErrorView::Validation("invalid recipient '"@ + rcpt@ + "': missing domain"@)),
{
    domain_follows_the_last_at(local, domain);
    let none = Seq::<char>::empty();
    domain_follows_the_last_at(local, none);
    assert(local + seq!['@'] + none =~= local + seq!['@']);
    domain_follows_the_last_at(rcpt@, none);
}

/// A domain that is asked for among everyone's passes if it is found at all.
pub proof fn hosted_domain_passes(
    query: &DomainQuery,
    found: Result<Option<DomainRecord>, SentioError>,
    r: Result<(), IngestFailure>,
)
    requires
        call_ensures(judge_domain, (query, found), r),
        query is Hosted,
    ensures
        r is Ok <==> (found matches Ok(Some(_))),
        found matches Ok(None) ==> (r matches Err(IngestFailure::Api(e)) && e@
            == ApiErrorView::Validation(
            "recipient domain '"@ + query->Hosted_domain@ + "' is not hosted for receiving"@,
        )),
        found matches Err(e) ==> (r matches Err(IngestFailure::Store(f)) && f@ == e@),
{
}

/// A domain that is asked for among the tenant's own passes if it is found and enabled
/// for receiving. A miss is the request's fault, and any other error the store's.
pub proof fn owned_domain_passes_when_receiving(
    query: &DomainQuery,
    found: Result<Option<DomainRecord>, SentioError>,
    r: Result<(), IngestFailure>,
)
    requires
        call_ensures(judge_domain, (query, found), r),
        query is Owned,
    ensures
        r is Ok <==> (found matches Ok(Some(record)) && record.use_for_receiving),
        (found matches Ok(Some(record)) && !record.use_for_receiving) ==> (r matches Err(
            IngestFailure::Api(e),
        ) && e@ == ApiErrorView::Validation(
            "domain '"@ + query->Owned_domain@ + "' is not enabled for receiving"@,
        )),
        (found matches Ok(None)) || (found matches Err(e) && e is NotFound) ==> (r matches Err(
            IngestFailure::Api(e),
        ) && e@ == ApiErrorView::Validation(
            "recipient domain '"@ + query->Owned_domain@ + "' is not hosted by this tenant"@,
        )),
        (found matches Err(e) && !(e is NotFound)) ==> (r matches Err(IngestFailure::Store(f))
            && f@ == found->Err_0@),
{
}

/// A message that the pipeline takes is answered as accepted, with the ids that the
/// pipeline gave; one that it does not take is answered with its refusal.
pub proof fn outcome_of_the_pipeline_is_the_answer(
    result: Result<ProcessingOutcome, ProcessingError>,
    r: Result<IngestResponse, IngestFailure>,
)
    requires
        call_ensures(on_processed, (result,), r),
    ensures
        result matches Ok(outcome) ==> (r matches Ok(answer) && answer.id == outcome.message_id
            && answer.queue_id@ == outcome.queue_id@ && answer.status@ == "accepted"@),
        result matches Err(ProcessingError::Reject { message }) ==> (r matches Err(
            IngestFailure::Api(e),
        ) && e@ == ApiErrorView::Validation(message@)),
        result matches Err(ProcessingError::TempFail { message }) ==> (r matches Err(
            IngestFailure::Api(e),
        ) && e@ == ApiErrorView::Unavailable(message@)),
{
    if let Ok(outcome) = result {
        assert(ended(r)->Ok_0.queue_id == outcome@.queue_id);
    }
}

/// A step asks its caller for what it holds: the text that is to be read is the client
/// address of the message, and the body, the question and the message are those of the
/// request.
pub proof fn steps_are_taken_as_they_are(step: IngestStep)
    ensures
        step matches IngestStep::ReadJson { body, context } ==> step@ == (
        IngestStepView::ReadJson { body: body@, context: context@ }),
        step matches IngestStep::ReadAddress { text, check } ==> step@ == (
        IngestStepView::ReadAddress {
            text: text@,
            context: check.context@,
            pending: check.pending@,
        }),
        step matches IngestStep::AskDomain(check) ==> (step@ matches IngestStepView::AskDomain {
            query,
            context,
            parsed,
            after,
        } && query == check.query@ && context == check.context@ && parsed == check.parsed@ && after
            == check.after),
        step matches IngestStep::Deliver(message) ==> step@ == IngestStepView::Deliver(message@),
        step matches IngestStep::Done(Ok(answer)) ==> (step@ matches IngestStepView::Done(Ok(v))
            && v.id == answer.id && v.queue_id == answer.queue_id@ && v.status == answer.status@),
        step matches IngestStep::Done(Err(IngestFailure::Api(e))) ==> step@
            == IngestStepView::Done(Err(IngestFailureView::Api(e@))),
        step matches IngestStep::Done(Err(IngestFailure::Store(e))) ==> step@
            == IngestStepView::Done(Err(IngestFailureView::Store(e@))),
{
}

} // verus!
