//! Outbound smart-host (relay) SMTP session.
//!
//! Completes TCP -> (implicit TLS | EHLO + STARTTLS) -> EHLO -> AUTH so that mail
//! can be sent. RFC 3207: after STARTTLS the server does not send a new greeting;
//! the client must EHLO immediately.
//!
//! [`open_relay_session`] gives the first [`RelayStep`]. A step says what its
//! caller is to do on the connection and carries the session, whose `on_` method
//! for that step takes what came of it and gives the next step, until the session
//! is [`RelayStep::Done`].

use vstd::prelude::*;
use vstd::string::*;

use crate::errors::{SentioError, SentioErrorView, SmtpError, SmtpErrorView};
use crate::text::{ascii_lowered, decimal, decimal_of, same_text, to_ascii_lowercase};

verus! {

/// A failure without a reply.
pub open spec fn smtp_failure(message: Seq<char>) -> SentioErrorView {
    smtp_failure_code(0, message)
}

/// A failure with the code of the reply.
pub open spec fn smtp_failure_code(code: u16, message: Seq<char>) -> SentioErrorView {
    SentioErrorView::Smtp(SmtpErrorView { code, enhanced: None, message })
}

/// A failure without a reply.
pub fn smtp_err(msg: &str) -> (r: SentioError)
    ensures
        r@ == smtp_failure(msg@),
{
    SentioError::Smtp(SmtpError { code: 0, enhanced: None, message: msg.to_owned() })
}

/// A failure with the code of the reply.
pub fn smtp_err_code(code: u16, msg: String) -> (r: SentioError)
    ensures
        r@ == smtp_failure_code(code, msg@),
{
    SentioError::Smtp(SmtpError { code, enhanced: None, message: msg })
}

/// How the relay connection is protected.
#[derive(Debug, Clone, Copy, PartialEq, Eq, Structural)]
pub enum RelayTlsMode {
    StartTls,
    Implicit,
    Plain,
}

/// The mode that a configuration value names, in any case; anything else, and
/// nothing, stands for a plain connection.
pub open spec fn configured_mode(value: Option<Seq<char>>) -> RelayTlsMode {
    match value {
        Some(text) => if ascii_lowered(text) == "starttls"@ {
            RelayTlsMode::StartTls
        } else if ascii_lowered(text) == "implicit"@ {
            RelayTlsMode::Implicit
        } else {
            RelayTlsMode::Plain
        },
        None => RelayTlsMode::Plain,
    }
}

impl RelayTlsMode {
    /// The mode that a configuration value names.
    pub fn from_config(value: Option<&str>) -> (r: RelayTlsMode)
        ensures
            r == configured_mode(value.deep_view()),
    {
        match value {
            Some(text) => {
                let lowered = to_ascii_lowercase(text);
                if same_text(lowered.as_str(), "starttls") {
                    RelayTlsMode::StartTls
                } else if same_text(lowered.as_str(), "implicit") {
                    RelayTlsMode::Implicit
                } else {
                    RelayTlsMode::Plain
                }
            },
            None => RelayTlsMode::Plain,
        }
    }
}

/// The case of a configuration value does not matter.
pub proof fn mode_ignores_case(a: Seq<char>, b: Seq<char>)
    requires
        ascii_lowered(a) == ascii_lowered(b),
    ensures
        configured_mode(Some(a)) == configured_mode(Some(b)),
{
}

/// Parameters for opening a relay SMTP session.
#[derive(Debug)]
pub struct RelaySessionParams {
    pub hostname: String,
    pub ehlo_hostname: String,
    pub tls_mode: RelayTlsMode,
    pub auth_username: Option<String>,
    pub auth_password: Option<String>,
}

/// What [`RelaySessionParams`] say.
pub struct RelaySessionParamsView {
    pub hostname: Seq<char>,
    pub ehlo_hostname: Seq<char>,
    pub tls_mode: RelayTlsMode,
    pub auth_username: Option<Seq<char>>,
    pub auth_password: Option<Seq<char>>,
}

impl View for RelaySessionParams {
    type V = RelaySessionParamsView;

    open spec fn view(&self) -> RelaySessionParamsView {
        RelaySessionParamsView {
            hostname: self.hostname@,
            ehlo_hostname: self.ehlo_hostname@,
            tls_mode: self.tls_mode,
            auth_username: self.auth_username.deep_view(),
            auth_password: self.auth_password.deep_view(),
        }
    }
}

/// How strictly a server's certificate is checked.
#[derive(Debug, Clone, Copy, PartialEq, Eq, Structural)]
pub enum TlsPolicy {
    Opportunistic,
}

/// What a TLS handshake must satisfy.
#[derive(Debug)]
pub struct TlsRequirement {
    pub policy: TlsPolicy,
    pub dane_records: Vec<String>,
    pub mta_sts_mx_patterns: Vec<String>,
}

/// What a [`TlsRequirement`] says.
pub struct TlsRequirementView {
    pub policy: TlsPolicy,
    pub dane_records: Seq<Seq<char>>,
    pub mta_sts_mx_patterns: Seq<Seq<char>>,
}

impl View for TlsRequirement {
    type V = TlsRequirementView;

    open spec fn view(&self) -> TlsRequirementView {
        TlsRequirementView {
            policy: self.policy,
            dane_records: self.dane_records.deep_view(),
            mta_sts_mx_patterns: self.mta_sts_mx_patterns.deep_view(),
        }
    }
}

/// What a relay's TLS handshake must satisfy: no more than that it succeeds.
pub open spec fn relay_requirement() -> TlsRequirementView {
    TlsRequirementView {
        policy: TlsPolicy::Opportunistic,
        dane_records: Seq::empty(),
        mta_sts_mx_patterns: Seq::empty(),
    }
}

/// What a relay's TLS handshake must satisfy.
fn relay_tls_requirement() -> (r: TlsRequirement)
    ensures
        r@ == relay_requirement(),
{
    let r = TlsRequirement {
        policy: TlsPolicy::Opportunistic,
        dane_records: Vec::new(),
        mta_sts_mx_patterns: Vec::new(),
    };
    assert(r@.dane_records =~= Seq::empty());
    assert(r@.mta_sts_mx_patterns =~= Seq::empty());
    r
}

/// A reply of the server.
#[derive(Debug)]
pub struct SmtpReply {
    pub code: u16,
    /// Whether the code stands for success.
    pub success: bool,
    pub full_text: String,
}

/// What an [`SmtpReply`] says.
pub struct SmtpReplyView {
    pub code: u16,
    pub success: bool,
    pub full_text: Seq<char>,
}

impl View for SmtpReply {
    type V = SmtpReplyView;

    open spec fn view(&self) -> SmtpReplyView {
        SmtpReplyView { code: self.code, success: self.success, full_text: self.full_text@ }
    }
}

/// The reply to an EHLO.
#[derive(Debug)]
pub struct EhloReply {
    pub reply: SmtpReply,
    /// Whether the server offers STARTTLS, if its capabilities are known.
    pub starttls: Option<bool>,
}

/// What an [`EhloReply`] says.
pub struct EhloReplyView {
    pub reply: SmtpReplyView,
    pub starttls: Option<bool>,
}

impl View for EhloReply {
    type V = EhloReplyView;

    open spec fn view(&self) -> EhloReplyView {
        EhloReplyView { reply: self.reply@, starttls: self.starttls }
    }
}

/// What came of a TLS handshake.
#[derive(Debug)]
pub enum TlsOutcome {
    Ready,
    TimedOut,
    Failed(SentioError),
}

/// What a [`TlsOutcome`] says.
pub enum TlsOutcomeView {
    Ready,
    TimedOut,
    Failed(SentioErrorView),
}

impl View for TlsOutcome {
    type V = TlsOutcomeView;

    open spec fn view(&self) -> TlsOutcomeView {
        match self {
            TlsOutcome::Ready => TlsOutcomeView::Ready,
            TlsOutcome::TimedOut => TlsOutcomeView::TimedOut,
            TlsOutcome::Failed(e) => TlsOutcomeView::Failed(e@),
        }
    }
}

/// A relay session that is being opened.
#[derive(Debug)]
pub struct RelaySession {
    pub params: RelaySessionParams,
    /// Whether a TLS handshake has succeeded.
    pub encrypted: bool,
}

/// What a [`RelaySession`] says.
pub struct RelaySessionView {
    pub params: RelaySessionParamsView,
    pub encrypted: bool,
}

impl View for RelaySession {
    type V = RelaySessionView;

    open spec fn view(&self) -> RelaySessionView {
        RelaySessionView { params: self.params@, encrypted: self.encrypted }
    }
}

/// What to do next on the connection.
#[derive(Debug)]
pub enum RelayStep {
    /// Start SMTP on the plain stream: wait for the greeting and go on with
    /// [`RelaySession::on_greeting`].
    OpenPlain(RelaySession),
    /// Make a TLS handshake with `server_name` on the plain stream and go on with
    /// [`RelaySession::on_handshake`].
    Handshake { server_name: String, requirement: TlsRequirement, session: RelaySession },
    /// Start SMTP on the TLS stream: wait for the greeting and go on with
    /// [`RelaySession::on_greeting`].
    OpenTls(RelaySession),
    /// Go on with SMTP on the TLS stream, without a greeting and with `buffered` as
    /// what was read before it, and with [`RelaySession::on_resumed`].
    ResumeTls { buffered: Vec<u8>, session: RelaySession },
    /// Send EHLO and go on with [`RelaySession::on_ehlo`].
    Ehlo { hostname: String, session: RelaySession },
    /// Send STARTTLS and go on with [`RelaySession::on_starttls`].
    StartTls(RelaySession),
    /// Take the stream, and what was read from it and not used, back from SMTP and
    /// go on with [`RelaySession::on_stream`].
    TakeStream(RelaySession),
    /// Send AUTH and end with [`on_auth`].
    Authenticate { username: String, password: String, encrypted: bool },
    /// The session is ready for MAIL FROM, or has failed.
    Done(Result<(), SentioError>),
}

/// What a [`RelayStep`] says.
pub enum RelayStepView {
    OpenPlain(RelaySessionView),
    Handshake {
        server_name: Seq<char>,
        requirement: TlsRequirementView,
        session: RelaySessionView,
    },
    OpenTls(RelaySessionView),
    ResumeTls { buffered: Seq<u8>, session: RelaySessionView },
    Ehlo { hostname: Seq<char>, session: RelaySessionView },
    StartTls(RelaySessionView),
    TakeStream(RelaySessionView),
    Authenticate { username: Seq<char>, password: Seq<char>, encrypted: bool },
    Done(Result<(), SentioErrorView>),
}

impl View for RelayStep {
    type V = RelayStepView;

    open spec fn view(&self) -> RelayStepView {
        match self {
            RelayStep::OpenPlain(session) => RelayStepView::OpenPlain(session@),
            RelayStep::Handshake { server_name, requirement, session } => RelayStepView::Handshake {
                server_name: server_name@,
                requirement: requirement@,
                session: session@,
            },
            RelayStep::OpenTls(session) => RelayStepView::OpenTls(session@),
            RelayStep::ResumeTls { buffered, session } => RelayStepView::ResumeTls {
                buffered: buffered@,
                session: session@,
            },
            RelayStep::Ehlo { hostname, session } => RelayStepView::Ehlo {
                hostname: hostname@,
                session: session@,
            },
            RelayStep::StartTls(session) => RelayStepView::StartTls(session@),
            RelayStep::TakeStream(session) => RelayStepView::TakeStream(session@),
            RelayStep::Authenticate { username, password, encrypted } => RelayStepView::Authenticate {
                username: username@,
                password: password@,
                encrypted: *encrypted,
            },
            RelayStep::Done(r) => RelayStepView::Done(
                match r {
                    Ok(_) => Ok(()),
                    Err(e) => Err(e@),
                },
            ),
        }
    }
}

/// What came of waiting for a reply, reply and error taken by their views.
pub open spec fn came_back<T: View>(r: Result<T, SentioError>) -> Result<T::V, SentioErrorView> {
    match r {
        Ok(v) => Ok(v@),
        Err(e) => Err(e@),
    }
}

/// The end of a session that has failed.
pub open spec fn failed(e: SentioErrorView) -> RelayStepView {
    RelayStepView::Done(Err(e))
}

/// The failure for a reply that is no success.
pub open spec fn rejection(what: Seq<char>, reply: SmtpReplyView) -> SentioErrorView {
    smtp_failure_code(
        reply.code,
        what + decimal_of(reply.code as nat) + " "@ + reply.full_text,
    )
}

/// The first step: nothing is done for a user name without a password.
pub open spec fn first_relay_step(params: RelaySessionParamsView) -> RelayStepView {
    let session = RelaySessionView { params, encrypted: false };
    if params.auth_username is Some && params.auth_password is None {
        failed(smtp_failure("relay AUTH username configured but password is missing"@))
    } else if params.tls_mode == RelayTlsMode::Implicit {
        tls_step(session)
    } else {
        RelayStepView::OpenPlain(session)
    }
}

/// The step that makes a TLS handshake.
pub open spec fn tls_step(session: RelaySessionView) -> RelayStepView {
    RelayStepView::Handshake {
        server_name: session.params.hostname,
        requirement: relay_requirement(),
        session,
    }
}

/// The step that sends EHLO.
pub open spec fn ehlo_step(session: RelaySessionView) -> RelayStepView {
    RelayStepView::Ehlo { hostname: session.params.ehlo_hostname, session }
}

/// The step after the greeting.
pub open spec fn greeting_step(
    session: RelaySessionView,
    greeting: Result<(), SentioErrorView>,
) -> RelayStepView {
    match greeting {
        Err(e) => failed(e),
        Ok(_) => ehlo_step(session),
    }
}

/// The step after a TLS handshake. Only with implicit TLS does the server greet
/// once more; else SMTP goes on with an empty buffer.
pub open spec fn handshake_step(
    session: RelaySessionView,
    outcome: TlsOutcomeView,
) -> RelayStepView {
    let encrypted = RelaySessionView { params: session.params, encrypted: true };
    match outcome {
        TlsOutcomeView::TimedOut => failed(smtp_failure("TLS handshake timeout"@)),
        TlsOutcomeView::Failed(e) => failed(e),
        TlsOutcomeView::Ready => if session.params.tls_mode == RelayTlsMode::Implicit {
            RelayStepView::OpenTls(encrypted)
        } else {
            RelayStepView::ResumeTls { buffered: Seq::empty(), session: encrypted }
        },
    }
}

/// The step for a session that is done but for AUTH.
pub open spec fn auth_step(session: RelaySessionView) -> RelayStepView {
    match (session.params.auth_username, session.params.auth_password) {
        (Some(username), Some(password)) => RelayStepView::Authenticate {
            username,
            password,
            encrypted: session.encrypted,
        },
        _ => RelayStepView::Done(Ok(())),
    }
}

/// The step after the reply to EHLO: STARTTLS where it is asked for and not done
/// yet, else AUTH.
pub open spec fn ehlo_reply_step(
    session: RelaySessionView,
    came: Result<EhloReplyView, SentioErrorView>,
) -> RelayStepView {
    match came {
        Err(e) => failed(e),
        Ok(ehlo) => if !ehlo.reply.success {
            failed(rejection("EHLO rejected: "@, ehlo.reply))
        } else if session.params.tls_mode == RelayTlsMode::StartTls && !session.encrypted {
            if ehlo.starttls == Some(true) {
                RelayStepView::StartTls(session)
            } else {
                failed(smtp_failure("STARTTLS required but server did not advertise it"@))
            }
        } else {
            auth_step(session)
        },
    }
}

/// The step after the reply to STARTTLS.
pub open spec fn starttls_reply_step(
    session: RelaySessionView,
    came: Result<SmtpReplyView, SentioErrorView>,
) -> RelayStepView {
    match came {
        Err(e) => failed(e),
        Ok(reply) => if !reply.success {
            failed(rejection("STARTTLS rejected: "@, reply))
        } else {
            RelayStepView::TakeStream(session)
        },
    }
}

/// The step after the stream was taken back from SMTP. What was read from it and
/// not used is dropped.
pub open spec fn stream_step(
    session: RelaySessionView,
    stream_encrypted: bool,
    leftover: Seq<u8>,
) -> RelayStepView {
    if stream_encrypted {
        failed(smtp_failure("STARTTLS issued on an already-encrypted connection"@))
    } else {
        tls_step(session)
    }
}

/// The end after the reply to AUTH.
pub open spec fn auth_result(came: Result<SmtpReplyView, SentioErrorView>) -> Result<
    (),
    SentioErrorView,
> {
    match came {
        Err(e) => Err(e),
        Ok(reply) => if !reply.success {
            Err(rejection("AUTH failed: "@, reply))
        } else {
            Ok(())
        },
    }
}

/// The failure for a reply that is no success.
fn reject(what: &str, reply: &SmtpReply) -> (r: SentioError)
    ensures
        r@ == rejection(what@, reply@),
{
    smtp_err_code(
        reply.code,
        what.to_owned().concat(decimal(reply.code as u64).as_str()).concat(" ").concat(
            reply.full_text.as_str(),
        ),
    )
}

/// Opens a relay session through greeting, TLS, EHLO and AUTH.
pub fn open_relay_session(params: RelaySessionParams) -> (r: RelayStep)
    ensures
        r@ == first_relay_step(params@),
{
    if params.auth_username.is_some() && params.auth_password.is_none() {
        return RelayStep::Done(
            Err(smtp_err("relay AUTH username configured but password is missing")),
        );
    }
    let session = RelaySession { params, encrypted: false };
    match session.params.tls_mode {
        RelayTlsMode::Implicit => session.handshake(),
        RelayTlsMode::StartTls | RelayTlsMode::Plain => RelayStep::OpenPlain(session),
    }
}

impl RelaySession {
    /// Makes a TLS handshake with the relay.
    fn handshake(self) -> (r: RelayStep)
        ensures
            r@ == tls_step(self@),
    {
        let server_name = self.params.hostname.as_str().to_owned();
        RelayStep::Handshake {
            server_name,
            requirement: relay_tls_requirement(),
            session: self,
        }
    }

    /// Sends EHLO.
    fn ehlo(self) -> (r: RelayStep)
        ensures
            r@ == ehlo_step(self@),
    {
        let hostname = self.params.ehlo_hostname.as_str().to_owned();
        RelayStep::Ehlo { hostname, session: self }
    }

    /// Sends AUTH, where credentials are configured.
    fn authenticate(self) -> (r: RelayStep)
        ensures
            r@ == auth_step(self@),
    {
        match (self.params.auth_username, self.params.auth_password) {
            (Some(username), Some(password)) => RelayStep::Authenticate {
                username,
                password,
                encrypted: self.encrypted,
            },
            _ => RelayStep::Done(Ok(())),
        }
    }

    /// Goes on with what came of waiting for the greeting.
    pub fn on_greeting(self, greeting: Result<(), SentioError>) -> (r: RelayStep)
        ensures
            r@ == greeting_step(self@, came_back(greeting)),
    {
        match greeting {
            Err(e) => RelayStep::Done(Err(e)),
            Ok(_) => self.ehlo(),
        }
    }

    /// Goes on with what came of the TLS handshake.
    pub fn on_handshake(self, outcome: TlsOutcome) -> (r: RelayStep)
        ensures
            r@ == handshake_step(self@, outcome@),
    {
        match outcome {
            TlsOutcome::TimedOut => RelayStep::Done(Err(smtp_err("TLS handshake timeout"))),
            TlsOutcome::Failed(e) => RelayStep::Done(Err(e)),
            TlsOutcome::Ready => {
                let session = RelaySession { params: self.params, encrypted: true };
                match session.params.tls_mode {
                    RelayTlsMode::Implicit => RelayStep::OpenTls(session),
                    RelayTlsMode::StartTls | RelayTlsMode::Plain => RelayStep::ResumeTls {
                        buffered: Vec::new(),
                        session,
                    },
                }
            },
        }
    }

    /// Goes on with SMTP on the TLS stream.
    pub fn on_resumed(self) -> (r: RelayStep)
        ensures
            r@ == ehlo_step(self@),
    {
        self.ehlo()
    }

    /// Goes on with what came of EHLO.
    pub fn on_ehlo(self, came: Result<EhloReply, SentioError>) -> (r: RelayStep)
        ensures
            r@ == ehlo_reply_step(self@, came_back(came)),
    {
        let ehlo = match came {
            Err(e) => {
                return RelayStep::Done(Err(e));
            },
            Ok(ehlo) => ehlo,
        };
        if !ehlo.reply.success {
            return RelayStep::Done(Err(reject("EHLO rejected: ", &ehlo.reply)));
        }
        if self.params.tls_mode == RelayTlsMode::StartTls && !self.encrypted {
            match ehlo.starttls {
                Some(true) => RelayStep::StartTls(self),
                _ => RelayStep::Done(
                    Err(smtp_err("STARTTLS required but server did not advertise it")),
                ),
            }
        } else {
            self.authenticate()
        }
    }

    /// Goes on with what came of STARTTLS.
    pub fn on_starttls(self, came: Result<SmtpReply, SentioError>) -> (r: RelayStep)
        ensures
            r@ == starttls_reply_step(self@, came_back(came)),
    {
        match came {
            Err(e) => RelayStep::Done(Err(e)),
            Ok(reply) => if !reply.success {
                RelayStep::Done(Err(reject("STARTTLS rejected: ", &reply)))
            } else {
                RelayStep::TakeStream(self)
            },
        }
    }

    /// Goes on with the stream that was taken back from SMTP, and without the
    /// `leftover` that was read from it and not used.
    pub fn on_stream(self, stream_encrypted: bool, leftover: Vec<u8>) -> (r: RelayStep)
        ensures
            r@ == stream_step(self@, stream_encrypted, leftover@),
    {
        if stream_encrypted {
            RelayStep::Done(
                Err(smtp_err("STARTTLS issued on an already-encrypted connection")),
            )
        } else {
            self.handshake()
        }
    }
}

/// Ends with what came of AUTH.
pub fn on_auth(came: Result<SmtpReply, SentioError>) -> (r: Result<(), SentioError>)
    ensures
        came_back(r) == auth_result(came_back(came)),
{
    match came {
        Err(e) => Err(e),
        Ok(reply) => if !reply.success {
            Err(reject("AUTH failed: ", &reply))
        } else {
            Ok(())
        },
    }
}

/// The parameters of a session are taken as they are.
pub proof fn params_are_taken_as_they_are(params: RelaySessionParams)
    ensures
        params@.hostname == params.hostname@,
        params@.ehlo_hostname == params.ehlo_hostname@,
        params@.tls_mode == params.tls_mode,
        params@.auth_username is Some <==> params.auth_username is Some,
        params.auth_username matches Some(text) ==> params@.auth_username == Some(text@),
        params@.auth_password is Some <==> params.auth_password is Some,
        params.auth_password matches Some(text) ==> params@.auth_password == Some(text@),
{
}

/// Only `starttls` and `implicit`, in any case, ask for TLS; a value that names neither,
/// and no value, ask for none.
pub proof fn mode_is_named_by_the_configuration(value: Option<&str>, r: RelayTlsMode)
    requires
        call_ensures(RelayTlsMode::from_config, (value,), r),
    ensures
        r == RelayTlsMode::StartTls <==> (value matches Some(text) && ascii_lowered(text@)
            == "starttls"@),
        r == RelayTlsMode::Implicit <==> (value matches Some(text) && ascii_lowered(text@)
            == "implicit"@),
        r == RelayTlsMode::Plain <==> (value matches Some(text) ==> ascii_lowered(text@)
            != "starttls"@ && ascii_lowered(text@) != "implicit"@),
{
    reveal_strlit("starttls");
    reveal_strlit("implicit");
    assert("starttls"@[0] != "implicit"@[0]);
}

/// A failure carries its text, and the code of the reply, or 0 where there was none.
pub proof fn failures_carry_code_and_text(
    msg: &str,
    code: u16,
    text: String,
    r: SentioError,
    s: SentioError,
)
    requires
        call_ensures(smtp_err, (msg,), r),
        call_ensures(smtp_err_code, (code, text), s),
    ensures
        r matches SentioError::Smtp(e) && e.code == 0 && e.enhanced is None && e.message@ == msg@,
        s matches SentioError::Smtp(e) && e.code == code && e.enhanced is None && e.message@
            == text@,
{
    assert(r@->Smtp_0.enhanced is None);
    assert(s@->Smtp_0.enhanced is None);
}

/// AUTH succeeds exactly with a reply of success. Any other reply fails the session with
/// its code and its text, and a broken connection with what broke it.
pub proof fn auth_succeeds_by_a_reply_of_success(
    came: Result<SmtpReply, SentioError>,
    r: Result<(), SentioError>,
)
    requires
        call_ensures(on_auth, (came,), r),
    ensures
        r is Ok <==> (came matches Ok(reply) && reply.success),
        (came matches Ok(reply) && !reply.success) ==> (r matches Err(SentioError::Smtp(e))
            && e.code == came->Ok_0.code && e.message@ == "AUTH failed: "@ + decimal_of(
            came->Ok_0.code as nat,
        ) + " "@ + came->Ok_0.full_text@),
        came matches Err(e) ==> (r matches Err(f) && f@ == e@),
{
    if came matches Ok(reply) && !reply.success {
        assert(r->Err_0@ == rejection("AUTH failed: "@, came->Ok_0@));
    }
}

/// A refused EHLO fails the session with the code and the text of the reply, and a broken
/// connection with what broke it, whatever the session.
pub proof fn refused_ehlo_fails(
    session: RelaySession,
    came: Result<EhloReply, SentioError>,
    r: RelayStep,
)
    requires
        call_ensures(RelaySession::on_ehlo, (session, came), r),
    ensures
        (came matches Ok(ehlo) && !ehlo.reply.success) ==> (r matches RelayStep::Done(
            Err(SentioError::Smtp(e)),
        ) && e.code == came->Ok_0.reply.code && e.message@ == "EHLO rejected: "@ + decimal_of(
            came->Ok_0.reply.code as nat,
        ) + " "@ + came->Ok_0.reply.full_text@),
        came matches Err(e) ==> (r matches RelayStep::Done(Err(f)) && f@ == e@),
{
    if came matches Ok(ehlo) && !ehlo.reply.success {
        assert(r@ == failed(rejection("EHLO rejected: "@, came->Ok_0.reply@)));
    }
}

/// A refused STARTTLS fails the session with the code and the text of the reply, and a
/// broken connection with what broke it; one that is granted leads on to the stream.
pub proof fn refused_starttls_fails(
    session: RelaySession,
    came: Result<SmtpReply, SentioError>,
    r: RelayStep,
)
    requires
        call_ensures(RelaySession::on_starttls, (session, came), r),
    ensures
        (came matches Ok(reply) && !reply.success) ==> (r matches RelayStep::Done(
            Err(SentioError::Smtp(e)),
        ) && e.code == came->Ok_0.code && e.message@ == "STARTTLS rejected: "@ + decimal_of(
            came->Ok_0.code as nat,
        ) + " "@ + came->Ok_0.full_text@),
        came matches Err(e) ==> (r matches RelayStep::Done(Err(f)) && f@ == e@),
        (came matches Ok(reply) && reply.success) ==> (r matches RelayStep::TakeStream(next)
            && next@ == session@),
{
    if came matches Ok(reply) && !reply.success {
        assert(r@ == failed(rejection("STARTTLS rejected: "@, came->Ok_0@)));
    }
}

/// A handshake that fails or does not end in time fails the session, and so do a stream
/// that is encrypted already and a greeting that does not come.
pub proof fn broken_connection_fails(
    session: RelaySession,
    e: SentioError,
    leftover: Vec<u8>,
    timed_out: RelayStep,
    no_tls: RelayStep,
    encrypted: RelayStep,
    no_greeting: RelayStep,
)
    requires
        call_ensures(RelaySession::on_handshake, (session, TlsOutcome::TimedOut), timed_out),
        call_ensures(RelaySession::on_handshake, (session, TlsOutcome::Failed(e)), no_tls),
        call_ensures(RelaySession::on_stream, (session, true, leftover), encrypted),
        call_ensures(RelaySession::on_greeting, (session, Err(e)), no_greeting),
    ensures
        timed_out matches RelayStep::Done(Err(SentioError::Smtp(f))) && f.code == 0 && f.message@
            == "TLS handshake timeout"@,
        no_tls matches RelayStep::Done(Err(f)) && f@ == e@,
        encrypted matches RelayStep::Done(Err(SentioError::Smtp(f))) && f.code == 0 && f.message@
            == "STARTTLS issued on an already-encrypted connection"@,
        no_greeting matches RelayStep::Done(Err(f)) && f@ == e@,
{
    assert(timed_out@ == failed(smtp_failure("TLS handshake timeout"@)));
    assert(encrypted@ == failed(
        smtp_failure("STARTTLS issued on an already-encrypted connection"@),
    ));
}

/// A step says what it holds, and a reply says what the server said.
pub proof fn steps_are_taken_as_they_are(step: RelayStep, came: EhloReply)
    ensures
        step matches RelayStep::OpenPlain(s) ==> step@ == RelayStepView::OpenPlain(s@),
        step matches RelayStep::OpenTls(s) ==> step@ == RelayStepView::OpenTls(s@),
        step matches RelayStep::StartTls(s) ==> step@ == RelayStepView::StartTls(s@),
        step matches RelayStep::TakeStream(s) ==> step@ == RelayStepView::TakeStream(s@),
        step matches RelayStep::Handshake { server_name, requirement, session } ==> (
        step@ matches RelayStepView::Handshake { server_name: n, requirement: q, session: s } && n
            == server_name@ && s == session@ && q.policy == requirement.policy && q.dane_records
            == requirement.dane_records.deep_view() && q.mta_sts_mx_patterns
            == requirement.mta_sts_mx_patterns.deep_view()),
        step matches RelayStep::ResumeTls { buffered, session } ==> (
        step@ matches RelayStepView::ResumeTls { buffered: b, session: s } && b == buffered@ && s
            == session@),
        step matches RelayStep::Ehlo { hostname, session } ==> (
        step@ matches RelayStepView::Ehlo { hostname: h, session: s } && h == hostname@ && s
            == session@ && s.params == session.params@ && s.encrypted == session.encrypted),
        step matches RelayStep::Authenticate { username, password, encrypted } ==> (
        step@ matches RelayStepView::Authenticate { username: u, password: p, encrypted: e } && u
            == username@ && p == password@ && e == encrypted),
        step is Done <==> step@ is Done,
        step matches RelayStep::Done(Ok(_)) <==> step@ == RelayStepView::Done(Ok(())),
        came@.reply.code == came.reply.code,
        came@.reply.success == came.reply.success,
        came@.reply.full_text == came.reply.full_text@,
        came@.starttls == came.starttls,
{
}

} // verus!
