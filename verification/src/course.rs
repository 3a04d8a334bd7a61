//! What holds of an ingest request as a whole, from its first step to its
//! answer.

use axum::http::{HeaderMap, HeaderValue};
use vstd::prelude::*;
use vstd::utf8::*;

use crate::address::{addr_spec_of, domain_follows_the_last_at, is_address};
use crate::auth::{
    shared_ingest_context, shared_ingest_token_grants_ingest_only, AuthContextView,
};
use crate::errors::{ApiErrorView, SentioErrorView};
use crate::headers::header_text_of;
use crate::ingest::{
    addr_specs_of, base64_decoded, enveloped_message, header_str_of, ingest_body, ingest_format,
    ingest_scope, json_message, may_ingest, non_empty, recipient_list, recipients_shape,
    relay_shape, request_bytes, request_message, resolved, who_may_ingest, EnvelopeHeadersView,
    IngestBodyView, IngestFormat, IngestRequestView, ParsedIngestView,
};
use crate::message::{InboundMessageView, IpAddr, ProcessingErrorView, ProcessingOutcomeView};
use crate::session::{
    address_step, delivery_step, domain_verdict, first_ingest_step, inbound_message,
    pending_step, processed, recipient_query, recipient_step, verdict_step, within_size,
    DomainQueryView, DomainRecord, IngestContextView, IngestFailureView, IngestResponseView,
    IngestStepView,
};
use crate::text::{decimal_of, joined, joined_parts_come_apart, trimmed};

verus! {

/// What the surroundings of a request answer to its steps.
pub struct Surroundings {
    /// What reading a body as JSON gives.
    pub json: spec_fn(Seq<u8>) -> Result<IngestRequestView, Seq<char>>,
    /// What reading a text as an IP address gives.
    pub address: spec_fn(Seq<char>) -> Option<IpAddr>,
    /// What the domain store answers when it is asked for the recipient at an
    /// index.
    pub domains: spec_fn(int, DomainQueryView) -> Result<Option<DomainRecord>, SentioErrorView>,
    /// What the pipeline makes of a message.
    pub pipeline: spec_fn(InboundMessageView) -> Result<ProcessingOutcomeView, ProcessingErrorView>,
}

/// The course of a request: the message that went to the pipeline, if one did,
/// and the answer.
pub struct Course {
    pub delivered: Option<InboundMessageView>,
    pub answer: Result<IngestResponseView, IngestFailureView>,
}

/// How many kinds of steps may still follow.
pub open spec fn rank(step: IngestStepView) -> nat {
    match step {
        IngestStepView::ReadJson { .. } => 4,
        IngestStepView::ReadAddress { .. } => 3,
        IngestStepView::AskDomain { .. } => 2,
        IngestStepView::Deliver(_) => 1,
        IngestStepView::Done(_) => 0,
    }
}

/// How many recipients are still to be asked for.
pub open spec fn recipients_left(step: IngestStepView) -> nat {
    match step {
        IngestStepView::AskDomain { query, context, parsed, after } => if after
            <= parsed.envelope_to.len() {
            (parsed.envelope_to.len() - after) as nat
        } else {
            0
        },
        _ => 0,
    }
}

/// The course that a request takes from `step` on.
pub open spec fn course(step: IngestStepView, around: Surroundings) -> Course
    decreases rank(step), recipients_left(step),
{
    match step {
        IngestStepView::Done(answer) => Course { delivered: None, answer },
        IngestStepView::Deliver(message) => Course {
            delivered: Some(message),
            answer: processed((around.pipeline)(message)),
        },
        IngestStepView::ReadJson { body, context } => course(
            pending_step(context, json_message((around.json)(body))),
            around,
        ),
        IngestStepView::ReadAddress { text, context, pending } => course(
            address_step(context, pending, (around.address)(text)),
            around,
        ),
        IngestStepView::AskDomain { query, context, parsed, after } => course(
            verdict_step(
                domain_verdict(query, (around.domains)(after - 1, query)),
                context,
                parsed,
                after,
            ),
            around,
        ),
    }
}

/// The message that a request carries.
pub open spec fn carried(
    headers: HeaderMap<HeaderValue>,
    body: Seq<u8>,
    http_peer: Option<IpAddr>,
    around: Surroundings,
) -> Result<ParsedIngestView, ApiErrorView> {
    let pending = match ingest_body(headers, body) {
        Err(e) => Err(e),
        Ok(IngestBodyView::Json(body)) => json_message((around.json)(body)),
        Ok(IngestBodyView::Message(pending)) => Ok(pending),
    };
    match pending {
        Err(e) => Err(e),
        Ok(pending) => resolved(pending, (around.address)(pending.client_ip->0), http_peer),
    }
}

/// Whether the domain of recipient `i` is one that the request may send to.
pub open spec fn is_hosted(
    auth: AuthContextView,
    envelope_to: Seq<Seq<char>>,
    i: int,
    around: Surroundings,
) -> bool {
    recipient_query(auth, envelope_to[i]) matches Ok(query) && domain_verdict(
        query,
        (around.domains)(i, query),
    ) is Ok
}

/// Whether the recipients from `next` on are hosted.
pub open spec fn hosted_from(
    auth: AuthContextView,
    envelope_to: Seq<Seq<char>>,
    next: nat,
    around: Surroundings,
) -> bool {
    forall|i: int|
        next <= i < envelope_to.len() ==> #[trigger] is_hosted(auth, envelope_to, i, around)
}

/// Whether a message passes every check of an ingest request.
pub open spec fn is_deliverable(
    context: IngestContextView,
    parsed: ParsedIngestView,
    around: Surroundings,
) -> bool {
    &&& may_ingest(context.auth.scopes)
    &&& parsed.raw.len() > 0
    &&& relay_shape(
        parsed.envelope_from,
        parsed.envelope_to,
        context.settings.max_recipients_per_message as nat,
    ) is Ok
    &&& hosted_from(context.auth, parsed.envelope_to, 0, around)
    &&& within_size(parsed.raw.len(), context.settings.max_message_size_mb)
    &&& context.settings.processor_configured
}

/// What is wrong with the recipients from `next` on: the first that the request
/// may not send to decides.
pub open spec fn recipients_verdict(
    context: IngestContextView,
    parsed: ParsedIngestView,
    next: nat,
    around: Surroundings,
) -> Result<(), IngestFailureView>
    decreases parsed.envelope_to.len() - next,
{
    if next >= parsed.envelope_to.len() {
        Ok(())
    } else {
        match recipient_query(context.auth, parsed.envelope_to[next as int]) {
            Err(e) => Err(IngestFailureView::Api(e)),
            Ok(query) => match domain_verdict(query, (around.domains)(next as int, query)) {
                Err(e) => Err(e),
                Ok(_) => recipients_verdict(context, parsed, next + 1, around),
            },
        }
    }
}

/// The checks of a request in their order: scope, form, message, envelope,
/// recipients, size, pipeline. The first that fails decides.
pub open spec fn checks(
    context: IngestContextView,
    headers: HeaderMap<HeaderValue>,
    body: Seq<u8>,
    around: Surroundings,
) -> Result<ParsedIngestView, IngestFailureView> {
    if let Err(e) = ingest_scope(context.auth.scopes) {
        Err(IngestFailureView::Api(e))
    } else {
        match carried(headers, body, context.http_peer, around) {
            Err(e) => Err(IngestFailureView::Api(e)),
            Ok(parsed) => if parsed.raw.len() == 0 {
                Err(IngestFailureView::Api(ApiErrorView::Validation("raw message is empty"@)))
            } else if let Err(e) = relay_shape(
                parsed.envelope_from,
                parsed.envelope_to,
                context.settings.max_recipients_per_message as nat,
            ) {
                Err(IngestFailureView::Api(e))
            } else if let Err(e) = recipients_verdict(context, parsed, 0, around) {
                Err(e)
            } else {
                match delivery_step(context, parsed) {
                    IngestStepView::Done(Err(e)) => Err(e),
                    _ => Ok(parsed),
                }
            },
        }
    }
}

/// Recipients are asked for one after the other; the first that is not hosted
/// ends the request, and after the last the message is delivered if nothing else
/// is in its way.
proof fn lemma_recipients(
    context: IngestContextView,
    parsed: ParsedIngestView,
    next: nat,
    around: Surroundings,
)
    ensures
        course(recipient_step(context, parsed, next), around) == (match recipients_verdict(
            context,
            parsed,
            next,
            around,
        ) {
            Err(e) => Course { delivered: None, answer: Err(e) },
            Ok(_) => course(delivery_step(context, parsed), around),
        }),
        recipients_verdict(context, parsed, next, around) is Ok <==> hosted_from(
            context.auth,
            parsed.envelope_to,
            next,
            around,
        ),
    decreases parsed.envelope_to.len() - next,
{
    reveal_with_fuel(course, 2);
    if next < parsed.envelope_to.len() {
        lemma_recipients(context, parsed, next + 1, around);
        let rest = hosted_from(context.auth, parsed.envelope_to, next + 1, around);
        assert(hosted_from(context.auth, parsed.envelope_to, next, around) <==> is_hosted(
            context.auth,
            parsed.envelope_to,
            next as int,
            around,
        ) && rest);
    }
}

/// A request is answered by its checks: the first that fails is the answer, and
/// nothing is delivered; if none does, the message goes to the pipeline, and what
/// the pipeline makes of it is the answer.
pub proof fn first_failed_check_answers(
    context: IngestContextView,
    headers: HeaderMap<HeaderValue>,
    body: Seq<u8>,
    around: Surroundings,
)
    ensures
        course(first_ingest_step(context, headers, body), around) == (match checks(
            context,
            headers,
            body,
            around,
        ) {
            Err(e) => Course { delivered: None, answer: Err(e) },
            Ok(parsed) => Course {
                delivered: Some(inbound_message(context, parsed)),
                answer: processed((around.pipeline)(inbound_message(context, parsed))),
            },
        }),
{
    reveal_with_fuel(course, 3);
    if let Ok(parsed) = carried(headers, body, context.http_peer, around) {
        lemma_recipients(context, parsed, 0, around);
    }
}

/// A message goes to the pipeline if and only if the request carries one that
/// passes every check; the caller is then answered with what the pipeline made
/// of it, and else with an error.
pub proof fn delivered_exactly_when_deliverable(
    context: IngestContextView,
    headers: HeaderMap<HeaderValue>,
    body: Seq<u8>,
    around: Surroundings,
)
    ensures
        ({
            let run = course(first_ingest_step(context, headers, body), around);
            let message = carried(headers, body, context.http_peer, around);
            &&& run.delivered == (match message {
                Ok(parsed) => if is_deliverable(context, parsed, around) {
                    Some(inbound_message(context, parsed))
                } else {
                    None
                },
                Err(_) => None,
            })
            &&& run.delivered is None ==> run.answer is Err
            &&& run.delivered matches Some(m) ==> run.answer == processed((around.pipeline)(m))
        }),
{
    first_failed_check_answers(context, headers, body, around);
    if let Ok(parsed) = carried(headers, body, context.http_peer, around) {
        lemma_recipients(context, parsed, 0, around);
    }
}

/// Whoever lacks the scope to ingest is refused with an authentication error,
/// and nothing of the request is read.
pub proof fn refused_without_scope(
    context: IngestContextView,
    headers: HeaderMap<HeaderValue>,
    body: Seq<u8>,
)
    requires
        !may_ingest(context.auth.scopes),
    ensures
        first_ingest_step(context, headers, body) == IngestStepView::Done(
            Err(
                IngestFailureView::Api(
                    ApiErrorView::Auth("missing required scope: messages:ingest"@),
                ),
            ),
        ),
{
}

/// Every delivered message takes the inbound path: it has no SMTP AUTH user, was
/// not encrypted and asks for no delivery notices.
pub proof fn delivered_messages_are_inbound(
    context: IngestContextView,
    headers: HeaderMap<HeaderValue>,
    body: Seq<u8>,
    around: Surroundings,
)
    ensures
        course(first_ingest_step(context, headers, body), around).delivered matches Some(m) ==> {
            &&& m.authenticated_user is None
            &&& !m.tls_active
            &&& m.dsn_ret is None && m.dsn_envid is None
            &&& m.dsn_notify == Map::<String, String>::empty()
            &&& m.dsn_orcpt == Map::<String, String>::empty()
        },
{
    delivered_exactly_when_deliverable(context, headers, body, around);
}

/// Every recipient of a delivered message has a hosted domain: one of the tenant
/// that is enabled for receiving, or with the shared ingest token anyone's.
pub proof fn delivered_recipients_are_hosted(
    context: IngestContextView,
    headers: HeaderMap<HeaderValue>,
    body: Seq<u8>,
    around: Surroundings,
    i: int,
)
    requires
        course(first_ingest_step(context, headers, body), around).delivered matches Some(m) && 0
            <= i < m.envelope_to.len(),
    ensures
        ({
            let m = course(first_ingest_step(context, headers, body), around).delivered->0;
            let query = recipient_query(context.auth, m.envelope_to[i])->Ok_0;
            &&& recipient_query(context.auth, m.envelope_to[i]) is Ok
            &&& (around.domains)(i, query) matches Ok(Some(record)) && (context.auth.shared_ingest
                || record.use_for_receiving)
            &&& query is Hosted <==> context.auth.shared_ingest
        }),
{
    delivered_exactly_when_deliverable(context, headers, body, around);
    let m = course(first_ingest_step(context, headers, body), around).delivered->0;
    assert(is_hosted(context.auth, m.envelope_to, i, around));
}

/// The recipients from `next` on are addresses if the check of them succeeds.
proof fn lemma_recipients_shape(envelope_to: Seq<Seq<char>>, next: nat)
    ensures
        recipients_shape(envelope_to, next) is Ok <==> (forall|i: int|
            next <= i < envelope_to.len() ==> is_address(#[trigger] envelope_to[i])),
    decreases envelope_to.len() - next,
{
    if next < envelope_to.len() {
        lemma_recipients_shape(envelope_to, next + 1);
        assert(is_address(envelope_to[next as int]) || !is_address(envelope_to[next as int]));
    }
}

/// An envelope has the right shape if and only if it has a recipient, no more
/// than the limit, an address or nothing for a sender, and addresses for
/// recipients.
pub proof fn right_shape(envelope_from: Seq<char>, envelope_to: Seq<Seq<char>>, max_recipients: nat)
    ensures
        relay_shape(envelope_from, envelope_to, max_recipients) is Ok <==> {
            &&& 0 < envelope_to.len() <= max_recipients
            &&& envelope_from.len() == 0 || is_address(envelope_from)
            &&& forall|i: int| 0 <= i < envelope_to.len() ==> is_address(#[trigger] envelope_to[i])
        },
{
    lemma_recipients_shape(envelope_to, 0);
}

/// The limits of the configuration hold of every delivered message.
pub proof fn delivered_messages_are_within_limits(
    context: IngestContextView,
    headers: HeaderMap<HeaderValue>,
    body: Seq<u8>,
    around: Surroundings,
)
    ensures
        course(first_ingest_step(context, headers, body), around).delivered matches Some(m) ==> {
            &&& 0 < m.raw_data.len() <= context.settings.max_message_size_mb * 1024 * 1024
            &&& 0 < m.envelope_to.len() <= context.settings.max_recipients_per_message
        },
{
    delivered_exactly_when_deliverable(context, headers, body, around);
}

/// A message may be given as text or in base64: where both stand for the same
/// bytes, the request means the same.
pub proof fn text_and_base64_mean_the_same(
    request: IngestRequestView,
    text: Seq<char>,
    base64: Seq<char>,
    decoded: Result<Seq<u8>, Seq<char>>,
)
    requires
        decoded == Ok::<Seq<u8>, Seq<char>>(encode_utf8(text)),
    ensures
        request_message(
            IngestRequestView { raw: Some(text), raw_base64: None, ..request },
            decoded,
        ) == request_message(
            IngestRequestView { raw: None, raw_base64: Some(base64), ..request },
            decoded,
        ),
{
}

/// The envelope headers that say what a JSON request says, with the recipients
/// `written` with commas between them. A text that is empty stands in no header.
pub open spec fn headers_for(
    request: IngestRequestView,
    written: Seq<Seq<char>>,
) -> EnvelopeHeadersView {
    EnvelopeHeadersView {
        envelope_from: non_empty(Some(request.envelope_from)),
        envelope_to: non_empty(Some(joined(written, ','))),
        client_ip: request.client_ip,
        helo_domain: non_empty(request.helo_domain),
    }
}

/// A request means the same in JSON as with its message for a body and its envelope
/// in headers, where the header gives each recipient by the same address, without a
/// comma in it. The two may be written alike, or one with white space or a name.
pub proof fn both_forms_mean_the_same(
    request: IngestRequestView,
    written: Seq<Seq<char>>,
    decoded: Result<Seq<u8>, Seq<char>>,
    body: Seq<u8>,
)
    requires
        request_bytes(request, decoded) == Ok::<Seq<u8>, ApiErrorView>(body),
        written.len() == request.envelope_to.len(),
        forall|i: int|
            0 <= i < written.len() ==> {
                &&& !(#[trigger] written[i]).contains(',')
                &&& addr_spec_of(written[i]) == addr_spec_of(request.envelope_to[i])
                &&& addr_spec_of(written[i]).len() > 0
            },
    ensures
        request_message(request, decoded) == Ok::<_, ApiErrorView>(
            enveloped_message(headers_for(request, written), body),
        ),
{
    let list = joined(written, ',');
    let addresses = addr_specs_of(written);
    assert(addr_spec_of(Seq::empty()) =~= Seq::empty());
    assert(addresses =~= addr_specs_of(request.envelope_to)) by {
        assert forall|i: int| 0 <= i < written.len() implies addresses[i] == addr_specs_of(
            request.envelope_to,
        )[i] by {
            assert(addresses[i] == addr_spec_of(written[i]));
        }
    }
    if request.envelope_from.len() == 0 {
        assert(request.envelope_from =~= Seq::empty());
    }
    if written.len() == 0 {
        assert(addresses =~= Seq::empty());
    } else {
        joined_parts_come_apart(written, ',');
        lemma_all_are_kept(addresses);
        assert(recipient_list(list) == addresses);
        if list.len() == 0 {
            assert(list =~= Seq::empty());
            assert(written.len() == 1);
        }
    }
}

/// A list without empty texts loses nothing when these are left out.
proof fn lemma_all_are_kept(list: Seq<Seq<char>>)
    requires
        forall|i: int| 0 <= i < list.len() ==> (#[trigger] list[i]).len() > 0,
    ensures
        list.filter(|a: Seq<char>| a.len() > 0) == list,
    decreases list.len(),
{
    reveal(Seq::filter);
    if list.len() > 0 {
        lemma_all_are_kept(list.drop_last());
        assert(list.last().len() > 0);
        assert(list == list.drop_last().push(list.last()));
    }
}

/// The shared ingest token may ingest.
pub proof fn shared_ingest_token_may_ingest()
    ensures
        may_ingest(shared_ingest_context().scopes),
{
    shared_ingest_token_grants_ingest_only("messages:ingest"@);
}

/// A body that is itself the message is delivered as it came.
pub proof fn message_body_is_delivered_unchanged(
    context: IngestContextView,
    headers: HeaderMap<HeaderValue>,
    body: Seq<u8>,
    around: Surroundings,
)
    requires
        ingest_body(headers, body) matches Ok(b) && b is Message,
    ensures
        course(first_ingest_step(context, headers, body), around).delivered matches Some(m)
            ==> m.raw_data == body,
{
    delivered_exactly_when_deliverable(context, headers, body, around);
}

/// The text of a JSON request is delivered as its UTF-8 bytes.
pub proof fn json_text_is_delivered_unchanged(
    context: IngestContextView,
    headers: HeaderMap<HeaderValue>,
    body: Seq<u8>,
    around: Surroundings,
    text: Seq<char>,
)
    requires
        ingest_body(headers, body) matches Ok(b) && b is Json,
        (around.json)(body) matches Ok(request) && request.raw == Some(text),
    ensures
        course(first_ingest_step(context, headers, body), around).delivered matches Some(m)
            ==> m.raw_data == encode_utf8(text),
{
    delivered_exactly_when_deliverable(context, headers, body, around);
}

/// Whether the request may send to `rcpt`, the recipient at index `i`: the domain behind
/// its last `@` is one that the store knows, and is enabled for receiving unless the
/// request has the shared ingest token.
pub open spec fn may_send_to(
    auth: AuthContextView,
    rcpt: Seq<char>,
    i: int,
    around: Surroundings,
) -> bool {
    exists|local: Seq<char>, domain: Seq<char>|
        {
            &&& rcpt == #[trigger] (local + seq!['@'] + domain)
            &&& domain.len() > 0 && !domain.contains('@')
            &&& if auth.shared_ingest {
                (around.domains)(i, DomainQueryView::Hosted { domain }) matches Ok(Some(_))
            } else {
                (around.domains)(
                    i,
                    DomainQueryView::Owned { tenant_id: auth.tenant_id, domain },
                ) matches Ok(Some(record)) && record.use_for_receiving
            }
        }
}

/// A recipient is hosted if the request may send to it.
proof fn lemma_may_send_to(
    auth: AuthContextView,
    envelope_to: Seq<Seq<char>>,
    i: int,
    around: Surroundings,
)
    requires
        0 <= i < envelope_to.len(),
    ensures
        is_hosted(auth, envelope_to, i, around) <==> may_send_to(auth, envelope_to[i], i, around),
{
    let rcpt = envelope_to[i];
    if is_hosted(auth, envelope_to, i, around) {
        rcpt.index_of_last_ensures('@');
        let at = rcpt.index_of_last('@')->0;
        let local = rcpt.take(at);
        let domain = rcpt.skip(at + 1);
        assert(rcpt =~= local + seq!['@'] + domain);
        assert(!domain.contains('@')) by {
            if domain.contains('@') {
                let j = choose|j: int| 0 <= j < domain.len() && domain[j] == '@';
                assert(rcpt[at + 1 + j] == '@');
            }
        }
        domain_follows_the_last_at(local, domain);
    }
    if may_send_to(auth, rcpt, i, around) {
        let (local, domain) = choose|local: Seq<char>, domain: Seq<char>|
            {
                &&& rcpt == #[trigger] (local + seq!['@'] + domain)
                &&& domain.len() > 0 && !domain.contains('@')
                &&& if auth.shared_ingest {
                    (around.domains)(i, DomainQueryView::Hosted { domain }) matches Ok(Some(_))
                } else {
                    (around.domains)(
                        i,
                        DomainQueryView::Owned { tenant_id: auth.tenant_id, domain },
                    ) matches Ok(Some(record)) && record.use_for_receiving
                }
            };
        domain_follows_the_last_at(local, domain);
    }
}

/// A message that a request carries goes to the pipeline exactly when the caller may
/// ingest, there are bytes and no more than the limit, there is a recipient and no more
/// than the limit, sender and recipients are addresses or the sender is null, the
/// request may send to every recipient, and this process has a pipeline. Then and only
/// then can the answer be other than an error.
pub proof fn what_stands_between_a_message_and_the_pipeline(
    context: IngestContextView,
    headers: HeaderMap<HeaderValue>,
    body: Seq<u8>,
    around: Surroundings,
)
    ensures
        ({
            let run = course(first_ingest_step(context, headers, body), around);
            let scopes = context.auth.scopes;
            let limits = context.settings;
            &&& run.delivered is Some <==> {
                &&& scopes.contains("messages:ingest"@) || scopes.contains("messages:send"@)
                    || scopes.contains("*"@)
                &&& carried(headers, body, context.http_peer, around) matches Ok(p)
                &&& 0 < p.raw.len() <= limits.max_message_size_mb * 1024 * 1024
                &&& 0 < p.envelope_to.len() <= limits.max_recipients_per_message
                &&& p.envelope_from.len() == 0 || is_address(p.envelope_from)
                &&& forall|i: int|
                    0 <= i < p.envelope_to.len() ==> is_address(#[trigger] p.envelope_to[i])
                        && may_send_to(context.auth, p.envelope_to[i], i, around)
                &&& limits.processor_configured
            }
            &&& run.delivered is None ==> run.answer is Err
        }),
{
    delivered_exactly_when_deliverable(context, headers, body, around);
    who_may_ingest(context.auth.scopes);
    if let Ok(p) = carried(headers, body, context.http_peer, around) {
        right_shape(
            p.envelope_from,
            p.envelope_to,
            context.settings.max_recipients_per_message as nat,
        );
        assert forall|i: int| 0 <= i < p.envelope_to.len() implies (is_hosted(
            context.auth,
            p.envelope_to,
            i,
            around,
        ) <==> may_send_to(context.auth, #[trigger] p.envelope_to[i], i, around)) by {
            lemma_may_send_to(context.auth, p.envelope_to, i, around);
        }
        if hosted_from(context.auth, p.envelope_to, 0, around) {
            assert forall|i: int| 0 <= i < p.envelope_to.len() implies may_send_to(
                context.auth,
                #[trigger] p.envelope_to[i],
                i,
                around,
            ) by {
                assert(is_hosted(context.auth, p.envelope_to, i, around));
            }
        }
        if forall|i: int|
            0 <= i < p.envelope_to.len() ==> is_address(#[trigger] p.envelope_to[i])
                && may_send_to(context.auth, p.envelope_to[i], i, around) {
            assert forall|i: int| 0 <= i < p.envelope_to.len() implies #[trigger] is_hosted(
                context.auth,
                p.envelope_to,
                i,
                around,
            ) by {
                assert(may_send_to(context.auth, p.envelope_to[i], i, around));
            }
        }
    }
}

/// What a JSON request carries is the bytes that it gives as text or in base64, from the
/// bare address of its sender to the bare address of every recipient that it names, in
/// order. The peer is the address that it names, whoever sends it, and else the HTTP
/// peer. It carries something exactly when it gives its bytes once, in base64 only such
/// as can be decoded, and a peer, if any, that can be read.
pub proof fn what_a_json_request_carries(
    headers: HeaderMap<HeaderValue>,
    body: Seq<u8>,
    http_peer: Option<IpAddr>,
    around: Surroundings,
    request: IngestRequestView,
)
    requires
        ingest_format(header_text_of(headers, "content-type"@)) matches Ok(IngestFormat::Json),
        (around.json)(body) == Ok::<IngestRequestView, Seq<char>>(request),
    ensures
        ({
            let got = carried(headers, body, http_peer, around);
            let as_text = request.raw is Some && request.raw_base64 is None;
            let decoded = base64_decoded(trimmed(request.raw_base64->0));
            let as_base64 = request.raw is None && request.raw_base64 is Some && decoded is Ok;
            &&& got is Ok <==> (as_text || as_base64) && (request.client_ip is Some ==> (
            around.address)(request.client_ip->0) is Some)
            &&& got matches Ok(p) ==> {
                &&& as_text ==> p.raw == encode_utf8(request.raw->0)
                &&& as_base64 ==> p.raw == decoded->Ok_0
                &&& p.envelope_from == addr_spec_of(request.envelope_from)
                &&& p.envelope_to.len() == request.envelope_to.len()
                &&& forall|i: int|
                    0 <= i < request.envelope_to.len() ==> #[trigger] p.envelope_to[i]
                        == addr_spec_of(request.envelope_to[i])
                &&& request.client_ip matches Some(text) ==> Some(p.peer_addr)
                    == (around.address)(text)
                &&& request.client_ip is None && http_peer is Some ==> Some(p.peer_addr)
                    == http_peer
                &&& request.client_ip is None && http_peer is None ==> p.peer_addr == IpAddr::V4(0)
                &&& p.helo_domain is Some <==> request.helo_domain is Some
                    && request.helo_domain->0.len() > 0
                &&& p.helo_domain is Some ==> p.helo_domain == request.helo_domain
            }
        }),
{
}

/// What a request with its envelope in headers carries is its body as it is, from the bare
/// address of the sender to every recipient in the list, in order and without the empty
/// ones. A part without a header is empty, and the peer is as with JSON.
pub proof fn what_an_enveloped_request_carries(
    headers: HeaderMap<HeaderValue>,
    body: Seq<u8>,
    http_peer: Option<IpAddr>,
    around: Surroundings,
)
    requires
        ingest_format(header_text_of(headers, "content-type"@)) matches Ok(IngestFormat::Rfc822),
    ensures
        ({
            let got = carried(headers, body, http_peer, around);
            let from = header_str_of(headers, "x-envelope-from"@);
            let to = header_str_of(headers, "x-envelope-to"@);
            let client_ip = header_str_of(headers, "x-client-ip"@);
            &&& got is Ok <==> (client_ip is Some ==> (around.address)(client_ip->0) is Some)
            &&& got matches Ok(p) ==> {
                &&& p.raw == body
                &&& from matches Some(text) ==> p.envelope_from == addr_spec_of(text)
                &&& from is None ==> p.envelope_from.len() == 0
                &&& to matches Some(text) ==> p.envelope_to == recipient_list(text)
                &&& to is None ==> p.envelope_to.len() == 0
                &&& client_ip matches Some(text) ==> Some(p.peer_addr) == (around.address)(text)
                &&& client_ip is None && http_peer is Some ==> Some(p.peer_addr) == http_peer
                &&& client_ip is None && http_peer is None ==> p.peer_addr == IpAddr::V4(0)
                &&& p.helo_domain == header_str_of(headers, "x-helo-domain"@)
            }
        }),
{
}

/// What goes to the pipeline is what the request carries, whole: its bytes, its sender,
/// every recipient in order, its peer and its HELO name, with the name and the limit of
/// this server.
pub proof fn carried_message_is_delivered_whole(
    context: IngestContextView,
    headers: HeaderMap<HeaderValue>,
    body: Seq<u8>,
    around: Surroundings,
)
    ensures
        course(first_ingest_step(context, headers, body), around).delivered matches Some(m) ==> {
            &&& carried(headers, body, context.http_peer, around) matches Ok(p)
            &&& m.raw_data == p.raw
            &&& m.envelope_from == p.envelope_from
            &&& m.envelope_to == p.envelope_to
            &&& m.peer_addr == p.peer_addr
            &&& m.client_domain == p.helo_domain
            &&& m.server_hostname == context.settings.hostname
            &&& m.max_received_headers == context.settings.max_received_headers
        },
{
    delivered_exactly_when_deliverable(context, headers, body, around);
}

/// A delivered message goes to every recipient that the request names, in order and in
/// full: in JSON to the bare address of each, and with an envelope in headers to the
/// addresses in the list but for empty ones.
pub proof fn every_named_recipient_gets_the_message(
    context: IngestContextView,
    headers: HeaderMap<HeaderValue>,
    body: Seq<u8>,
    around: Surroundings,
)
    ensures
        course(first_ingest_step(context, headers, body), around).delivered matches Some(m) ==> {
            let format = ingest_format(header_text_of(headers, "content-type"@));
            &&& format matches Ok(IngestFormat::Json) ==> {
                &&& (around.json)(body) matches Ok(request)
                &&& m.envelope_to.len() == request.envelope_to.len()
                &&& forall|i: int|
                    0 <= i < request.envelope_to.len() ==> #[trigger] m.envelope_to[i]
                        == addr_spec_of(request.envelope_to[i])
            }
            &&& format matches Ok(IngestFormat::Rfc822) ==> {
                &&& header_str_of(headers, "x-envelope-to"@) matches Some(list)
                &&& m.envelope_to == recipient_list(list)
            }
            &&& format is Ok
        },
{
    delivered_exactly_when_deliverable(context, headers, body, around);
    if let Ok(p) = carried(headers, body, context.http_peer, around) {
        right_shape(
            p.envelope_from,
            p.envelope_to,
            context.settings.max_recipients_per_message as nat,
        );
    }
}

/// The peer of a delivered message, which SPF is checked against, is the address that
/// the request names, and two requests that differ in nothing but the HTTP peer then
/// deliver the same.
pub proof fn named_peer_is_delivered(
    context: IngestContextView,
    other: IngestContextView,
    headers: HeaderMap<HeaderValue>,
    body: Seq<u8>,
    around: Surroundings,
    text: Seq<char>,
)
    requires
        other.auth == context.auth,
        other.settings == context.settings,
        ingest_format(header_text_of(headers, "content-type"@)) matches Ok(IngestFormat::Json) ==> ((
        around.json)(body) matches Ok(request) && request.client_ip == Some(text)),
        ingest_format(header_text_of(headers, "content-type"@)) matches Ok(IngestFormat::Rfc822)
            ==> header_str_of(headers, "x-client-ip"@) == Some(text),
    ensures
        course(first_ingest_step(context, headers, body), around).delivered matches Some(m)
            ==> Some(m.peer_addr) == (around.address)(text),
        course(first_ingest_step(context, headers, body), around) == course(
            first_ingest_step(other, headers, body),
            around,
        ),
{
    first_failed_check_answers(context, headers, body, around);
    first_failed_check_answers(other, headers, body, around);
    if let Ok(p) = carried(headers, body, context.http_peer, around) {
        lemma_verdict_of_auth(context, other, p, 0, around);
    }
}

/// What is wrong with the recipients does not depend on the HTTP peer.
proof fn lemma_verdict_of_auth(
    context: IngestContextView,
    other: IngestContextView,
    parsed: ParsedIngestView,
    next: nat,
    around: Surroundings,
)
    requires
        other.auth == context.auth,
    ensures
        recipients_verdict(context, parsed, next, around) == recipients_verdict(
            other,
            parsed,
            next,
            around,
        ),
    decreases parsed.envelope_to.len() - next,
{
    if next < parsed.envelope_to.len() {
        lemma_verdict_of_auth(context, other, parsed, next + 1, around);
    }
}

/// A request whose message cannot be read is refused with what is wrong with it: its
/// content type, its JSON, its bytes or its peer.
pub proof fn unreadable_request_is_refused(
    context: IngestContextView,
    headers: HeaderMap<HeaderValue>,
    body: Seq<u8>,
    around: Surroundings,
)
    requires
        may_ingest(context.auth.scopes),
    ensures
        ({
            let answer = course(first_ingest_step(context, headers, body), around).answer;
            let format = ingest_format(header_text_of(headers, "content-type"@));
            let read = (around.json)(body);
            let request = read->Ok_0;
            let decoded = base64_decoded(trimmed(request.raw_base64->0));
            &&& format matches Err(e) ==> answer == Err::<IngestResponseView, _>(
                IngestFailureView::Api(e),
            )
            &&& format matches Ok(IngestFormat::Json) ==> {
                &&& read matches Err(text) ==> answer == invalid("invalid JSON: "@ + text)
                &&& read is Ok && request.raw is Some && request.raw_base64 is Some ==> answer
                    == invalid("provide either raw or raw_base64, not both"@)
                &&& read is Ok && request.raw is None && request.raw_base64 is None ==> answer
                    == invalid("raw or raw_base64 is required"@)
                &&& read is Ok && request.raw is None && request.raw_base64 is Some ==> (
                decoded matches Err(text) ==> answer == invalid("invalid raw_base64: "@ + text))
                &&& read is Ok && (request.raw is Some && request.raw_base64 is None
                    || request.raw is None && request.raw_base64 is Some && decoded is Ok) ==> (
                request.client_ip matches Some(text) ==> (around.address)(text) is None ==> answer
                    == invalid("client_ip '"@ + text + "' is not a valid IP address"@))
            }
            &&& format matches Ok(IngestFormat::Rfc822) ==> (header_str_of(
                headers,
                "x-client-ip"@,
            ) matches Some(text) ==> (around.address)(text) is None ==> answer == invalid(
                "client_ip '"@ + text + "' is not a valid IP address"@,
            ))
        }),
{
    first_failed_check_answers(context, headers, body, around);
}

/// The answer to a request that is wrong in itself.
pub open spec fn invalid(text: Seq<char>) -> Result<IngestResponseView, IngestFailureView> {
    Err(IngestFailureView::Api(ApiErrorView::Validation(text)))
}

/// A message that can be read is refused for the first check that it fails: it is empty,
/// its envelope is wrong, a recipient is not hosted, it is too large, or this process has
/// no pipeline. One that fails none is answered with what the pipeline made of it.
pub proof fn checks_of_a_message_come_in_order(
    context: IngestContextView,
    headers: HeaderMap<HeaderValue>,
    body: Seq<u8>,
    around: Surroundings,
    p: ParsedIngestView,
)
    requires
        may_ingest(context.auth.scopes),
        carried(headers, body, context.http_peer, around) == Ok::<_, ApiErrorView>(p),
    ensures
        ({
            let run = course(first_ingest_step(context, headers, body), around);
            let limits = context.settings;
            let shape = relay_shape(
                p.envelope_from,
                p.envelope_to,
                limits.max_recipients_per_message as nat,
            );
            let hosted = forall|i: int|
                0 <= i < p.envelope_to.len() ==> may_send_to(
                    context.auth,
                    #[trigger] p.envelope_to[i],
                    i,
                    around,
                );
            &&& p.raw.len() == 0 ==> run.answer == invalid("raw message is empty"@)
            &&& p.raw.len() > 0 ==> (shape matches Err(e) ==> run.answer == Err::<
                IngestResponseView,
                _,
            >(IngestFailureView::Api(e)))
            &&& p.raw.len() > 0 && shape is Ok && hosted && p.raw.len()
                > limits.max_message_size_mb * 1024 * 1024 ==> run.answer == invalid(
                "message exceeds max size of "@ + decimal_of(limits.max_message_size_mb as nat)
                    + " MB"@,
            )
            &&& p.raw.len() > 0 && shape is Ok && hosted && p.raw.len()
                <= limits.max_message_size_mb * 1024 * 1024 && !limits.processor_configured
                ==> run.answer == Err::<IngestResponseView, _>(
                IngestFailureView::Api(
                    ApiErrorView::Unavailable("inbound ingest is not configured on this process"@),
                ),
            )
            &&& run.delivered matches Some(m) ==> match (around.pipeline)(m) {
                Ok(outcome) => run.answer == Ok::<_, IngestFailureView>(
                    IngestResponseView {
                        id: outcome.message_id,
                        queue_id: outcome.queue_id,
                        status: "accepted"@,
                    },
                ),
                Err(ProcessingErrorView::Reject { message }) => run.answer == invalid(message),
                Err(ProcessingErrorView::TempFail { message }) => run.answer == Err::<
                    IngestResponseView,
                    _,
                >(IngestFailureView::Api(ApiErrorView::Unavailable(message))),
            }
        }),
{
    first_failed_check_answers(context, headers, body, around);
    lemma_recipients(context, p, 0, around);
    if forall|i: int|
        0 <= i < p.envelope_to.len() ==> may_send_to(
            context.auth,
            #[trigger] p.envelope_to[i],
            i,
            around,
        ) {
        assert forall|i: int| 0 <= i < p.envelope_to.len() implies #[trigger] is_hosted(
            context.auth,
            p.envelope_to,
            i,
            around,
        ) by {
            lemma_may_send_to(context.auth, p.envelope_to, i, around);
            assert(may_send_to(context.auth, p.envelope_to[i], i, around));
        }
    }
}

/// The first recipient whose domain the request may not send to decides the answer, by
/// what the store said of the domain.
pub proof fn first_unhosted_recipient_decides(
    context: IngestContextView,
    headers: HeaderMap<HeaderValue>,
    body: Seq<u8>,
    around: Surroundings,
    p: ParsedIngestView,
    i: int,
    local: Seq<char>,
    domain: Seq<char>,
)
    requires
        may_ingest(context.auth.scopes),
        carried(headers, body, context.http_peer, around) == Ok::<_, ApiErrorView>(p),
        p.raw.len() > 0,
        relay_shape(
            p.envelope_from,
            p.envelope_to,
            context.settings.max_recipients_per_message as nat,
        ) is Ok,
        0 <= i < p.envelope_to.len(),
        forall|j: int|
            0 <= j < i ==> may_send_to(context.auth, #[trigger] p.envelope_to[j], j, around),
        p.envelope_to[i] == local + seq!['@'] + domain,
        domain.len() > 0 && !domain.contains('@'),
    ensures
        ({
            let run = course(first_ingest_step(context, headers, body), around);
            let hosted = (around.domains)(i, DomainQueryView::Hosted { domain });
            let owned = (around.domains)(
                i,
                DomainQueryView::Owned { tenant_id: context.auth.tenant_id, domain },
            );
            &&& context.auth.shared_ingest ==> {
                &&& hosted matches Ok(None) ==> run.answer == invalid(
                    "recipient domain '"@ + domain + "' is not hosted for receiving"@,
                )
                &&& hosted matches Err(e) ==> run.answer == Err::<IngestResponseView, _>(
                    IngestFailureView::Store(e),
                )
            }
            &&& !context.auth.shared_ingest ==> {
                &&& (owned matches Ok(Some(record)) && !record.use_for_receiving) ==> run.answer
                    == invalid("domain '"@ + domain + "' is not enabled for receiving"@)
                &&& (owned matches Ok(None)) || (owned matches Err(e) && e is NotFound)
                    ==> run.answer == invalid(
                    "recipient domain '"@ + domain + "' is not hosted by this tenant"@,
                )
                &&& (owned matches Err(e) && !(e is NotFound)) ==> run.answer == Err::<
                    IngestResponseView,
                    _,
                >(IngestFailureView::Store(owned->Err_0))
            }
        }),
{
    first_failed_check_answers(context, headers, body, around);
    domain_follows_the_last_at(local, domain);
    lemma_verdict_at(context, p, 0, i as nat, around);
}

/// Recipients that the request may send to are passed over.
proof fn lemma_verdict_at(
    context: IngestContextView,
    p: ParsedIngestView,
    from: nat,
    i: nat,
    around: Surroundings,
)
    requires
        from <= i < p.envelope_to.len(),
        forall|j: int|
            from <= j < i ==> may_send_to(context.auth, #[trigger] p.envelope_to[j], j, around),
    ensures
        recipients_verdict(context, p, from, around) == recipients_verdict(context, p, i, around),
    decreases i - from,
{
    if from < i {
        assert(may_send_to(context.auth, p.envelope_to[from as int], from as int, around));
        lemma_may_send_to(context.auth, p.envelope_to, from as int, around);
        lemma_verdict_at(context, p, from + 1, i, around);
    }
}

} // verus!
