//! What holds of every relay session, whatever the server answers.

use vstd::prelude::*;

use crate::errors::{SentioErrorView, SmtpErrorView};
use crate::relay::{
    auth_result, ehlo_reply_step, ehlo_step, failed, first_relay_step, greeting_step,
    handshake_step, relay_requirement, smtp_failure, starttls_reply_step, stream_step, EhloReplyView,
    RelaySessionParamsView, RelaySessionView, RelayStepView, RelayTlsMode, SmtpReplyView,
    TlsOutcomeView, TlsPolicy, TlsRequirementView,
};
use crate::text::decimal_of;

verus! {

/// What came of a step.
pub enum RelayAnswer {
    Greeting(Result<(), SentioErrorView>),
    Handshake(TlsOutcomeView),
    Resumed,
    Ehlo(Result<EhloReplyView, SentioErrorView>),
    StartTls(Result<SmtpReplyView, SentioErrorView>),
    /// The stream, and what was read from it and not used.
    Stream { encrypted: bool, leftover: Seq<u8> },
    Auth(Result<SmtpReplyView, SentioErrorView>),
}

/// Whether `answer` is something that can come of `step`.
pub open spec fn answers(step: RelayStepView, answer: RelayAnswer) -> bool {
    match step {
        RelayStepView::OpenPlain(_) | RelayStepView::OpenTls(_) => answer is Greeting,
        RelayStepView::Handshake { .. } => answer is Handshake,
        RelayStepView::ResumeTls { .. } => answer is Resumed,
        RelayStepView::Ehlo { .. } => answer is Ehlo,
        RelayStepView::StartTls(_) => answer is StartTls,
        RelayStepView::TakeStream(_) => answer is Stream,
        RelayStepView::Authenticate { .. } => answer is Auth,
        RelayStepView::Done(_) => false,
    }
}

/// The step that comes after `step` with `answer`; `step` itself where that cannot
/// come of it.
pub open spec fn next_step(step: RelayStepView, answer: RelayAnswer) -> RelayStepView {
    match (step, answer) {
        (RelayStepView::OpenPlain(session), RelayAnswer::Greeting(came)) => greeting_step(
            session,
            came,
        ),
        (RelayStepView::OpenTls(session), RelayAnswer::Greeting(came)) => greeting_step(
            session,
            came,
        ),
        (
            RelayStepView::Handshake { server_name, requirement, session },
            RelayAnswer::Handshake(outcome),
        ) => handshake_step(session, outcome),
        (RelayStepView::ResumeTls { buffered, session }, RelayAnswer::Resumed) => ehlo_step(
            session,
        ),
        (RelayStepView::Ehlo { hostname, session }, RelayAnswer::Ehlo(came)) => ehlo_reply_step(
            session,
            came,
        ),
        (RelayStepView::StartTls(session), RelayAnswer::StartTls(came)) => starttls_reply_step(
            session,
            came,
        ),
        (RelayStepView::TakeStream(session), RelayAnswer::Stream { encrypted, leftover }) =>
            stream_step(session, encrypted, leftover),
        (RelayStepView::Authenticate { .. }, RelayAnswer::Auth(came)) => RelayStepView::Done(
            auth_result(came),
        ),
        _ => step,
    }
}

/// Whether `next` can come after `step`, for something that can come of it.
pub open spec fn follows(step: RelayStepView, next: RelayStepView) -> bool {
    exists|answer: RelayAnswer|
        answers(step, answer) && next == #[trigger] next_step(step, answer)
}

/// Whether `steps` is the beginning of a session with `params`.
pub open spec fn is_session(params: RelaySessionParamsView, steps: Seq<RelayStepView>) -> bool {
    &&& steps.len() > 0
    &&& steps[0] == first_relay_step(params)
    &&& forall|i: int| 0 < i < steps.len() ==> follows(steps[i - 1], #[trigger] steps[i])
}

/// Whether a step starts or goes on with SMTP on a TLS stream. Such a step comes
/// only from a handshake that succeeded.
pub open spec fn enters_tls(step: RelayStepView) -> bool {
    step is OpenTls || step is ResumeTls
}

/// Whether the session has entered TLS by step `i`.
pub open spec fn in_tls(steps: Seq<RelayStepView>, i: int) -> bool {
    exists|j: int| 0 <= j <= i && enters_tls(#[trigger] steps[j])
}

/// What holds of a step in every session with `params`.
pub open spec fn fits(params: RelaySessionParamsView, step: RelayStepView) -> bool {
    let mode = params.tls_mode;
    match step {
        RelayStepView::OpenPlain(session) => {
            &&& session.params == params
            &&& !session.encrypted
            &&& mode != RelayTlsMode::Implicit
        },
        RelayStepView::OpenTls(session) => {
            &&& session.params == params
            &&& session.encrypted
            &&& mode == RelayTlsMode::Implicit
        },
        RelayStepView::Handshake { server_name, requirement, session } => {
            &&& session.params == params
            &&& server_name == params.hostname
            &&& requirement == relay_requirement()
            &&& !session.encrypted
            &&& mode != RelayTlsMode::Plain
        },
        RelayStepView::ResumeTls { buffered, session } => {
            &&& buffered == Seq::<u8>::empty()
            &&& session.params == params
            &&& session.encrypted
            &&& mode == RelayTlsMode::StartTls
        },
        RelayStepView::Ehlo { hostname, session } => {
            &&& session.params == params
            &&& hostname == params.ehlo_hostname
            &&& mode == RelayTlsMode::Implicit ==> session.encrypted
            &&& mode == RelayTlsMode::Plain ==> !session.encrypted
        },
        RelayStepView::StartTls(session) | RelayStepView::TakeStream(session) => {
            &&& session.params == params
            &&& !session.encrypted
            &&& mode == RelayTlsMode::StartTls
        },
        RelayStepView::Authenticate { username, password, encrypted } => {
            &&& params.auth_username == Some(username)
            &&& params.auth_password == Some(password)
            &&& encrypted <==> mode != RelayTlsMode::Plain
        },
        RelayStepView::Done(_) => true,
    }
}

/// Whether a step knows the connection to be encrypted.
pub open spec fn knows_encrypted(step: RelayStepView) -> bool {
    match step {
        RelayStepView::OpenPlain(session) => session.encrypted,
        RelayStepView::OpenTls(session) => session.encrypted,
        RelayStepView::Handshake { server_name, requirement, session } => session.encrypted,
        RelayStepView::ResumeTls { buffered, session } => session.encrypted,
        RelayStepView::Ehlo { hostname, session } => session.encrypted,
        RelayStepView::StartTls(session) => session.encrypted,
        RelayStepView::TakeStream(session) => session.encrypted,
        RelayStepView::Authenticate { username, password, encrypted } => encrypted,
        RelayStepView::Done(_) => false,
    }
}

/// Every step of a session fits its parameters, and one that knows the connection
/// to be encrypted comes after a handshake.
proof fn lemma_session(params: RelaySessionParamsView, steps: Seq<RelayStepView>, i: int)
    requires
        is_session(params, steps),
        0 <= i < steps.len(),
    ensures
        fits(params, steps[i]),
        knows_encrypted(steps[i]) ==> in_tls(steps, i),
    decreases i,
{
    if i > 0 {
        lemma_session(params, steps, i - 1);
        assert(follows(steps[i - 1], steps[i]));
        if knows_encrypted(steps[i]) {
            if knows_encrypted(steps[i - 1]) {
                let j = choose|j: int| 0 <= j <= i - 1 && enters_tls(#[trigger] steps[j]);
                assert(0 <= j <= i && enters_tls(steps[j]));
            } else {
                assert(enters_tls(steps[i]));
            }
        }
    }
}

/// A user name without a password ends the session before anything is sent.
pub proof fn missing_password_sends_nothing(
    params: RelaySessionParamsView,
    steps: Seq<RelayStepView>,
)
    requires
        is_session(params, steps),
        params.auth_username is Some,
        params.auth_password is None,
    ensures
        steps == seq![
            failed(smtp_failure("relay AUTH username configured but password is missing"@)),
        ],
{
    if steps.len() > 1 {
        assert(follows(steps[0], steps[1]));
    }
}

/// After STARTTLS no greeting is waited for: a session with STARTTLS never starts
/// SMTP anew on the TLS stream, and what follows the handshake is an EHLO.
pub proof fn no_greeting_after_starttls(
    params: RelaySessionParamsView,
    steps: Seq<RelayStepView>,
    i: int,
)
    requires
        is_session(params, steps),
        params.tls_mode == RelayTlsMode::StartTls,
        0 <= i < steps.len(),
    ensures
        !(steps[i] is OpenTls),
        steps[i] is ResumeTls && i + 1 < steps.len() ==> steps[i + 1] is Ehlo,
{
    lemma_session(params, steps, i);
    if i + 1 < steps.len() {
        assert(follows(steps[i], steps[i + 1]));
    }
}

/// With implicit TLS nothing is read or sent in plain text: the session begins
/// with the handshake and never starts SMTP on the plain stream.
pub proof fn implicit_tls_is_never_plain(
    params: RelaySessionParamsView,
    steps: Seq<RelayStepView>,
    i: int,
)
    requires
        is_session(params, steps),
        params.tls_mode == RelayTlsMode::Implicit,
        0 <= i < steps.len(),
    ensures
        !(steps[i] is OpenPlain),
        !(steps[i] is StartTls),
        steps[i] is Ehlo ==> in_tls(steps, i),
{
    lemma_session(params, steps, i);
}

/// The steps that `came` leads to, one answer after the other.
pub open spec fn relay_steps(
    params: RelaySessionParamsView,
    came: Seq<RelayAnswer>,
) -> Seq<RelayStepView>
    decreases came.len(),
{
    if came.len() == 0 {
        seq![first_relay_step(params)]
    } else {
        let before = relay_steps(params, came.drop_last());
        before.push(next_step(before.last(), came.last()))
    }
}

/// The steps that answers lead to are a session, where each answer is one that can
/// come of its step.
pub proof fn answered_steps_are_a_session(
    params: RelaySessionParamsView,
    came: Seq<RelayAnswer>,
)
    requires
        forall|i: int|
            0 <= i < came.len() ==> answers(
                relay_steps(params, came)[i],
                #[trigger] came[i],
            ),
    ensures
        is_session(params, relay_steps(params, came)),
        relay_steps(params, came).len() == came.len() + 1,
    decreases came.len(),
{
    lemma_relay_steps(params, came);
    if came.len() > 0 {
        let before = came.drop_last();
        let steps = relay_steps(params, came);
        let earlier = relay_steps(params, before);
        lemma_relay_steps(params, before);
        assert forall|i: int| 0 <= i < before.len() implies answers(
            earlier[i],
            #[trigger] before[i],
        ) by {
            assert(came[i] == before[i]);
            assert(steps[i] == earlier[i]);
        }
        answered_steps_are_a_session(params, before);
        assert(answers(steps[came.len() - 1], came[came.len() - 1]));
        assert(steps[came.len() as int] == next_step(earlier.last(), came.last()));
        assert forall|i: int| 0 < i < steps.len() implies follows(
            steps[i - 1],
            #[trigger] steps[i],
        ) by {
            if i < earlier.len() {
                assert(follows(earlier[i - 1], earlier[i]));
            }
        }
    }
}

/// There is one step more than there are answers.
proof fn lemma_relay_steps(params: RelaySessionParamsView, came: Seq<RelayAnswer>)
    ensures
        relay_steps(params, came).len() == came.len() + 1,
    decreases came.len(),
{
    if came.len() > 0 {
        lemma_relay_steps(params, came.drop_last());
    }
}

/// Whether two answers are alike but for what was read from the plain stream and
/// not used.
pub open spec fn alike_but_leftover(a: RelayAnswer, b: RelayAnswer) -> bool {
    match (a, b) {
        (
            RelayAnswer::Stream { encrypted: x, leftover: _ },
            RelayAnswer::Stream { encrypted: y, leftover: _ },
        ) => x == y,
        _ => a == b,
    }
}

/// What the server sends in plain text behind its reply to STARTTLS changes nothing:
/// two sessions that are alike but for it take the same steps and end alike.
pub proof fn plaintext_behind_starttls_is_dropped(
    params: RelaySessionParamsView,
    a: Seq<RelayAnswer>,
    b: Seq<RelayAnswer>,
)
    requires
        a.len() == b.len(),
        forall|i: int| 0 <= i < a.len() ==> alike_but_leftover(#[trigger] a[i], b[i]),
    ensures
        relay_steps(params, a) == relay_steps(params, b),
    decreases a.len(),
{
    if a.len() > 0 {
        assert forall|i: int| 0 <= i < a.drop_last().len() implies alike_but_leftover(
            #[trigger] a.drop_last()[i],
            b.drop_last()[i],
        ) by {
            assert(alike_but_leftover(a[i], b[i]));
        }
        plaintext_behind_starttls_is_dropped(params, a.drop_last(), b.drop_last());
        assert(alike_but_leftover(a[a.len() - 1], b[b.len() - 1]));
    }
}

/// After STARTTLS only what comes over TLS is read as SMTP: with `received` from the
/// TLS stream, there is nothing before it in what SMTP goes on with.
pub proof fn only_tls_is_read_after_starttls(
    params: RelaySessionParamsView,
    steps: Seq<RelayStepView>,
    i: int,
    received: Seq<u8>,
)
    requires
        is_session(params, steps),
        0 <= i < steps.len(),
        steps[i] is ResumeTls,
    ensures
        steps[i]->buffered == Seq::<u8>::empty(),
        steps[i]->buffered + received == received,
        in_tls(steps, i),
{
    lemma_session(params, steps, i);
}

/// AUTH sends the configured credentials, and with STARTTLS or implicit TLS only
/// after a TLS handshake has succeeded.
pub proof fn credentials_are_protected(
    params: RelaySessionParamsView,
    steps: Seq<RelayStepView>,
    i: int,
)
    requires
        is_session(params, steps),
        0 <= i < steps.len(),
        steps[i] is Authenticate,
    ensures
        params.auth_username == Some(steps[i]->username),
        params.auth_password == Some(steps[i]->password),
        params.tls_mode != RelayTlsMode::Plain ==> in_tls(steps, i),
{
    lemma_session(params, steps, i);
}

/// A session that is ready has authenticated where credentials are configured,
/// and has said EHLO last where none are; with STARTTLS or implicit TLS it is
/// encrypted. There is no falling back to plain text.
pub proof fn ready_is_authenticated_and_protected(
    params: RelaySessionParamsView,
    steps: Seq<RelayStepView>,
    i: int,
)
    requires
        is_session(params, steps),
        0 <= i < steps.len(),
        steps[i] == RelayStepView::Done(Ok(())),
    ensures
        i > 0,
        params.auth_username is Some ==> steps[i - 1] is Authenticate,
        params.auth_username is None ==> steps[i - 1] is Ehlo,
        params.tls_mode != RelayTlsMode::Plain ==> in_tls(steps, i),
{
    assert(i > 0);
    lemma_session(params, steps, i - 1);
    assert(follows(steps[i - 1], steps[i]));
    if params.auth_username is Some && params.auth_password is None {
        missing_password_sends_nothing(params, steps);
    }
    if params.tls_mode != RelayTlsMode::Plain {
        assert(knows_encrypted(steps[i - 1]));
        let j = choose|j: int| 0 <= j <= i - 1 && enters_tls(#[trigger] steps[j]);
        assert(0 <= j <= i && enters_tls(steps[j]));
    }
}

/// How many steps can still come after one.
pub open spec fn steps_left(step: RelayStepView) -> nat {
    match step {
        RelayStepView::OpenPlain(_) => 8,
        RelayStepView::Ehlo { hostname, session } => if session.encrypted {
            2
        } else {
            7
        },
        RelayStepView::StartTls(_) => 6,
        RelayStepView::TakeStream(_) => 5,
        RelayStepView::Handshake { .. } => 4,
        RelayStepView::OpenTls(_) => 3,
        RelayStepView::ResumeTls { .. } => 3,
        RelayStepView::Authenticate { .. } => 1,
        RelayStepView::Done(_) => 0,
    }
}

/// Every session ends: it has at most nine steps.
pub proof fn sessions_end(params: RelaySessionParamsView, steps: Seq<RelayStepView>)
    requires
        is_session(params, steps),
    ensures
        steps.len() <= 9,
{
    lemma_steps_left(params, steps, steps.len() - 1);
}

/// Each step leaves fewer to come.
proof fn lemma_steps_left(params: RelaySessionParamsView, steps: Seq<RelayStepView>, i: int)
    requires
        is_session(params, steps),
        0 <= i < steps.len(),
    ensures
        i + steps_left(steps[i]) <= 8,
    decreases i,
{
    if i > 0 {
        lemma_steps_left(params, steps, i - 1);
        lemma_session(params, steps, i - 1);
        lemma_session(params, steps, i);
        assert(follows(steps[i - 1], steps[i]));
    }
}

/// The answer that comes of a step if all goes well: the connection holds, the
/// handshake succeeds, every command is answered with `ok`, and the server offers
/// STARTTLS.
pub open spec fn good_answer(step: RelayStepView, ok: SmtpReplyView) -> RelayAnswer {
    match step {
        RelayStepView::OpenPlain(_) | RelayStepView::OpenTls(_) => RelayAnswer::Greeting(Ok(())),
        RelayStepView::Handshake { .. } => RelayAnswer::Handshake(TlsOutcomeView::Ready),
        RelayStepView::ResumeTls { .. } => RelayAnswer::Resumed,
        RelayStepView::Ehlo { .. } => RelayAnswer::Ehlo(
            Ok(EhloReplyView { reply: ok, starttls: Some(true) }),
        ),
        RelayStepView::StartTls(_) => RelayAnswer::StartTls(Ok(ok)),
        RelayStepView::TakeStream(_) => RelayAnswer::Stream {
            encrypted: false,
            leftover: Seq::empty(),
        },
        RelayStepView::Authenticate { .. } | RelayStepView::Done(_) => RelayAnswer::Auth(Ok(ok)),
    }
}

/// The step that comes after `step` if all goes well.
pub open spec fn if_all_goes_well(step: RelayStepView, ok: SmtpReplyView) -> RelayStepView {
    next_step(step, good_answer(step, ok))
}

/// The step `n` steps after `step` if all goes well.
pub open spec fn steps_on(step: RelayStepView, ok: SmtpReplyView, n: nat) -> RelayStepView
    decreases n,
{
    if n == 0 {
        step
    } else {
        steps_on(if_all_goes_well(step, ok), ok, (n - 1) as nat)
    }
}

/// If all goes well, the session is ready for MAIL FROM.
pub proof fn willing_server_is_reached(params: RelaySessionParamsView, ok: SmtpReplyView)
    requires
        ok.success,
        params.auth_username is Some ==> params.auth_password is Some,
    ensures
        steps_on(first_relay_step(params), ok, 8) == RelayStepView::Done(Ok(())),
{
    reveal_with_fuel(steps_on, 9);
}

/// Whether what came of a step is what the session needs to go on: the connection holds,
/// the reply is one of success, and STARTTLS, where the session still needs it, is offered
/// on a plain stream.
pub open spec fn went_well(step: RelayStepView, answer: RelayAnswer) -> bool {
    match answer {
        RelayAnswer::Greeting(came) => came is Ok,
        RelayAnswer::Handshake(outcome) => outcome is Ready,
        RelayAnswer::Resumed => true,
        RelayAnswer::Ehlo(came) => {
            &&& came matches Ok(ehlo)
            &&& ehlo.reply.success
            &&& step matches RelayStepView::Ehlo { hostname, session }
            &&& session.params.tls_mode == RelayTlsMode::StartTls && !session.encrypted
                ==> ehlo.starttls == Some(true)
        },
        RelayAnswer::StartTls(came) => came matches Ok(reply) && reply.success,
        RelayAnswer::Stream { encrypted, leftover } => !encrypted,
        RelayAnswer::Auth(came) => came matches Ok(reply) && reply.success,
    }
}

/// A session fails exactly when something does not go well, and never goes on after it.
pub proof fn session_fails_when_something_goes_wrong(step: RelayStepView, answer: RelayAnswer)
    requires
        answers(step, answer),
    ensures
        (next_step(step, answer) matches RelayStepView::Done(Err(_))) <==> !went_well(step, answer),
{
}

/// A session is ready only after all went well, from the greeting to AUTH: with
/// credentials, the server answered AUTH with success.
pub proof fn ready_means_that_all_went_well(
    params: RelaySessionParamsView,
    came: Seq<RelayAnswer>,
)
    requires
        forall|i: int|
            0 <= i < came.len() ==> answers(relay_steps(params, came)[i], #[trigger] came[i]),
        relay_steps(params, came).last() == RelayStepView::Done(Ok(())),
    ensures
        forall|i: int|
            0 <= i < came.len() ==> went_well(relay_steps(params, came)[i], #[trigger] came[i]),
        came.len() > 0,
        params.auth_username is Some ==> (came.last() matches RelayAnswer::Auth(Ok(reply))
            && reply.success),
        params.auth_username is None ==> (came.last() matches RelayAnswer::Ehlo(Ok(ehlo))
            && ehlo.reply.success),
{
    let steps = relay_steps(params, came);
    answered_steps_are_a_session(params, came);
    let n = came.len() as int;
    assert forall|i: int| 0 <= i < came.len() implies went_well(steps[i], #[trigger] came[i]) by {
        lemma_step_of_answer(params, came, i);
        session_fails_when_something_goes_wrong(steps[i], came[i]);
        if i + 1 < n {
            assert(answers(steps[i + 1], came[i + 1]));
        } else {
            assert(steps[n] == steps.last());
        }
    }
    ready_is_authenticated_and_protected(params, steps, n);
    lemma_step_of_answer(params, came, n - 1);
    assert(answers(steps[n - 1], came[n - 1]));
    assert(went_well(steps[n - 1], came[n - 1]));
}

/// Each answer leads to the step behind it.
proof fn lemma_step_of_answer(params: RelaySessionParamsView, came: Seq<RelayAnswer>, i: int)
    requires
        0 <= i < came.len(),
    ensures
        relay_steps(params, came)[i + 1] == next_step(relay_steps(params, came)[i], came[i]),
        relay_steps(params, came).len() == came.len() + 1,
    decreases came.len(),
{
    lemma_relay_steps(params, came);
    lemma_relay_steps(params, came.drop_last());
    if i < came.len() - 1 {
        lemma_step_of_answer(params, came.drop_last(), i);
        assert(came.drop_last()[i] == came[i]);
    }
}

/// A server that refuses a command ends the session, in every state of it, with the code
/// of its reply and with what it said.
pub proof fn refused_command_ends_the_session(
    step: RelayStepView,
    reply: SmtpReplyView,
    starttls: Option<bool>,
)
    requires
        !reply.success,
    ensures
        ({
            let said = decimal_of(reply.code as nat) + " "@ + reply.full_text;
            let ehlo = RelayAnswer::Ehlo(Ok(EhloReplyView { reply, starttls }));
            &&& step is Ehlo ==> (next_step(step, ehlo) matches RelayStepView::Done(
                Err(SentioErrorView::Smtp(e)),
            ) && e.code == reply.code && e.message == "EHLO rejected: "@ + said)
            &&& step is StartTls ==> (next_step(
                step,
                RelayAnswer::StartTls(Ok(reply)),
            ) matches RelayStepView::Done(Err(SentioErrorView::Smtp(e))) && e.code == reply.code
                && e.message == "STARTTLS rejected: "@ + said)
            &&& step is Authenticate ==> (next_step(
                step,
                RelayAnswer::Auth(Ok(reply)),
            ) matches RelayStepView::Done(Err(SentioErrorView::Smtp(e))) && e.code == reply.code
                && e.message == "AUTH failed: "@ + said)
        }),
{
    let said = decimal_of(reply.code as nat) + " "@ + reply.full_text;
    let code = decimal_of(reply.code as nat);
    assert("EHLO rejected: "@ + code + " "@ + reply.full_text =~= "EHLO rejected: "@ + said);
    assert("STARTTLS rejected: "@ + code + " "@ + reply.full_text =~= "STARTTLS rejected: "@
        + said);
    assert("AUTH failed: "@ + code + " "@ + reply.full_text =~= "AUTH failed: "@ + said);
}

/// A connection that breaks ends the session, in every state of it, with what broke it.
pub proof fn broken_connection_ends_the_session(step: RelayStepView, e: SentioErrorView)
    ensures
        ({
            let end = RelayStepView::Done(Err(e));
            &&& step is OpenPlain || step is OpenTls ==> next_step(
                step,
                RelayAnswer::Greeting(Err(e)),
            ) == end
            &&& step is Handshake ==> next_step(
                step,
                RelayAnswer::Handshake(TlsOutcomeView::Failed(e)),
            ) == end
            &&& step is Ehlo ==> next_step(step, RelayAnswer::Ehlo(Err(e))) == end
            &&& step is StartTls ==> next_step(step, RelayAnswer::StartTls(Err(e))) == end
            &&& step is Authenticate ==> next_step(step, RelayAnswer::Auth(Err(e))) == end
        }),
{
}

/// Without STARTTLS on offer, or with an offer that is not known, a session that is to
/// use it ends before anything else is sent.
pub proof fn starttls_must_be_on_offer(session: RelaySessionView, ehlo: EhloReplyView)
    requires
        session.params.tls_mode == RelayTlsMode::StartTls,
        !session.encrypted,
        ehlo.reply.success,
        ehlo.starttls != Some(true),
    ensures
        ehlo_reply_step(session, Ok(ehlo)) == RelayStepView::Done(
            Err(
                SentioErrorView::Smtp(
                    SmtpErrorView {
                        code: 0,
                        enhanced: None,
                        message: "STARTTLS required but server did not advertise it"@,
                    },
                ),
            ),
        ),
{
}

/// What is left to do after an accepted EHLO, where TLS is not wanted or done: AUTH with
/// the configured credentials, or nothing where there is no user name. What the server
/// offers plays no part.
pub proof fn accepted_ehlo_leads_to_auth(session: RelaySessionView, ehlo: EhloReplyView)
    requires
        session.params.tls_mode != RelayTlsMode::StartTls || session.encrypted,
        ehlo.reply.success,
    ensures
        ({
            let next = ehlo_reply_step(session, Ok(ehlo));
            let params = session.params;
            &&& params.auth_username is Some && params.auth_password is Some ==> (
            next matches RelayStepView::Authenticate { username, password, encrypted } && Some(
                username,
            ) == params.auth_username && Some(password) == params.auth_password && encrypted
                == session.encrypted)
            &&& params.auth_username is None ==> next == RelayStepView::Done(Ok(()))
        }),
{
}

/// How a session begins, by its mode: with a handshake for implicit TLS, and else with the
/// greeting on the plain stream.
pub proof fn how_a_session_begins(params: RelaySessionParamsView)
    requires
        params.auth_username is Some ==> params.auth_password is Some,
    ensures
        params.tls_mode == RelayTlsMode::Implicit ==> (
        first_relay_step(params) matches RelayStepView::Handshake {
            server_name,
            requirement,
            session,
        } && server_name == params.hostname && session.params == params && !session.encrypted
            && requirement.policy == TlsPolicy::Opportunistic && requirement.dane_records.len()
            == 0 && requirement.mta_sts_mx_patterns.len() == 0),
        params.tls_mode != RelayTlsMode::Implicit ==> first_relay_step(params)
            == RelayStepView::OpenPlain(RelaySessionView { params, encrypted: false }),
{
}

/// How a session goes on when all goes well: after the greeting comes EHLO; STARTTLS, where
/// it is wanted and not done, after EHLO; after STARTTLS the handshake, with the relay's own
/// name; and after the handshake, with STARTTLS, EHLO at once on an empty buffer, and with
/// implicit TLS the greeting. The session knows the connection to be encrypted from the
/// handshake on, and keeps its parameters throughout.
pub proof fn how_a_session_goes_on(
    params: RelaySessionParamsView,
    encrypted: bool,
    ehlo: EhloReplyView,
    reply: SmtpReplyView,
    leftover: Seq<u8>,
    buffered: Seq<u8>,
    server_name: Seq<char>,
    hostname: Seq<char>,
    requirement: TlsRequirementView,
)
    requires
        ehlo.reply.success && ehlo.starttls == Some(true),
        reply.success,
    ensures
        ({
            let session = RelaySessionView { params, encrypted };
            let secure = RelaySessionView { params, encrypted: true };
            let ehlo_next = RelayStepView::Ehlo { hostname: params.ehlo_hostname, session };
            let handshake = RelayStepView::Handshake { server_name, requirement, session };
            let ready = RelayAnswer::Handshake(TlsOutcomeView::Ready);
            let greeted = RelayAnswer::Greeting(Ok(()));
            let taken = RelayAnswer::Stream { encrypted: false, leftover };
            &&& next_step(RelayStepView::OpenPlain(session), greeted) == ehlo_next
            &&& next_step(RelayStepView::OpenTls(session), greeted) == ehlo_next
            &&& next_step(
                RelayStepView::ResumeTls { buffered, session },
                RelayAnswer::Resumed,
            ) == ehlo_next
            &&& params.tls_mode == RelayTlsMode::StartTls && !encrypted ==> next_step(
                RelayStepView::Ehlo { hostname, session },
                RelayAnswer::Ehlo(Ok(ehlo)),
            ) == RelayStepView::StartTls(session)
            &&& next_step(
                RelayStepView::StartTls(session),
                RelayAnswer::StartTls(Ok(reply)),
            ) == RelayStepView::TakeStream(session)
            &&& next_step(
                RelayStepView::TakeStream(session),
                taken,
            ) matches RelayStepView::Handshake { server_name: name, requirement: asked, session: s }
                && name == params.hostname && s == session && asked.policy
                == TlsPolicy::Opportunistic && asked.dane_records.len() == 0
                && asked.mta_sts_mx_patterns.len() == 0
            &&& params.tls_mode == RelayTlsMode::Implicit ==> next_step(handshake, ready)
                == RelayStepView::OpenTls(secure)
            &&& params.tls_mode != RelayTlsMode::Implicit ==> next_step(handshake, ready)
                == RelayStepView::ResumeTls { buffered: Seq::empty(), session: secure }
        }),
{
}

/// A session in which all goes well, the answers being what they may, is ready.
pub proof fn session_is_ready_when_all_goes_well(
    step: RelayStepView,
    answer: RelayAnswer,
    params: RelaySessionParamsView,
)
    requires
        fits(params, step),
        answers(step, answer),
        went_well(step, answer),
        params.auth_username is Some ==> params.auth_password is Some,
    ensures
        fits(params, next_step(step, answer)),
        steps_left(next_step(step, answer)) < steps_left(step),
        next_step(step, answer) is Done ==> next_step(step, answer) == RelayStepView::Done(Ok(())),
{
}

} // verus!
