use sentio::errors::{SentioError, SmtpError};
use sentio::relay::{
    on_auth, open_relay_session, smtp_err, smtp_err_code, EhloReply,
    RelaySession, RelaySessionParams, RelayStep, RelayTlsMode, SmtpReply, TlsOutcome, TlsPolicy,
};

fn session_params(tls_mode: RelayTlsMode) -> RelaySessionParams {
    RelaySessionParams {
        hostname: "mail.smtp2go.test".to_string(),
        ehlo_hostname: "sentio.example.com".to_string(),
        tls_mode,
        auth_username: Some("relay-user".to_string()),
        auth_password: Some("relay-pass".to_string()),
    }
}

fn reply(code: u16, text: &str) -> SmtpReply {
    SmtpReply {
        code,
        success: (200..300).contains(&code),
        full_text: text.to_string(),
    }
}

fn ehlo_ok(starttls: Option<bool>) -> Result<EhloReply, SentioError> {
    Ok(EhloReply {
        reply: reply(250, "hello"),
        starttls,
    })
}

fn open_plain(step: RelayStep) -> RelaySession {
    match step {
        RelayStep::OpenPlain(session) => session,
        other => panic!("expected a plain start, got {other:?}"),
    }
}

fn handshake(step: RelayStep) -> RelaySession {
    match step {
        RelayStep::Handshake {
            server_name,
            requirement,
            session,
        } => {
            assert_eq!(server_name, "mail.smtp2go.test");
            assert_eq!(requirement.policy, TlsPolicy::Opportunistic);
            assert!(requirement.dane_records.is_empty());
            assert!(requirement.mta_sts_mx_patterns.is_empty());
            session
        }
        other => panic!("expected a handshake, got {other:?}"),
    }
}

fn ehlo(step: RelayStep) -> RelaySession {
    match step {
        RelayStep::Ehlo { hostname, session } => {
            assert_eq!(hostname, "sentio.example.com");
            session
        }
        other => panic!("expected EHLO, got {other:?}"),
    }
}

fn resumed(step: RelayStep) -> RelaySession {
    match step {
        RelayStep::ResumeTls { buffered, session } => {
            assert!(buffered.is_empty());
            session
        }
        other => panic!("expected SMTP to go on, got {other:?}"),
    }
}

fn expect_auth(step: RelayStep, over_tls: bool) {
    match step {
        RelayStep::Authenticate {
            username,
            password,
            encrypted,
        } => {
            assert_eq!(username, "relay-user");
            assert_eq!(password, "relay-pass");
            assert_eq!(encrypted, over_tls);
        }
        other => panic!("expected AUTH, got {other:?}"),
    }
    assert!(on_auth(Ok(reply(235, "2.7.0 Authentication succeeded"))).is_ok());
}

fn failure(step: RelayStep) -> (u16, String) {
    match step {
        RelayStep::Done(Err(e)) => smtp(e),
        other => panic!("expected a failure, got {other:?}"),
    }
}

fn smtp(e: SentioError) -> (u16, String) {
    match e {
        SentioError::Smtp(SmtpError {
            code,
            enhanced: None,
            message,
        }) => (code, message),
        other => panic!("expected an SMTP error, got {other:?}"),
    }
}

fn starttls_session() -> RelaySession {
    let session = open_plain(open_relay_session(session_params(RelayTlsMode::StartTls)));
    match ehlo(session.on_greeting(Ok(()))).on_ehlo(ehlo_ok(Some(true))) {
        RelayStep::StartTls(session) => session,
        other => panic!("expected STARTTLS, got {other:?}"),
    }
}

fn taken_stream() -> RelaySession {
    match starttls_session().on_starttls(Ok(reply(220, "TLS go ahead"))) {
        RelayStep::TakeStream(session) => session,
        other => panic!("expected the stream, got {other:?}"),
    }
}

#[test]
fn tls_mode_from_config() {
    assert_eq!(
        RelayTlsMode::from_config(Some("starttls")),
        RelayTlsMode::StartTls
    );
    assert_eq!(
        RelayTlsMode::from_config(Some("IMPLICIT")),
        RelayTlsMode::Implicit
    );
    assert_eq!(RelayTlsMode::from_config(Some("none")), RelayTlsMode::Plain);
    assert_eq!(RelayTlsMode::from_config(None), RelayTlsMode::Plain);
}

#[test]
fn unknown_tls_mode_is_plain() {
    assert_eq!(RelayTlsMode::from_config(Some("tls")), RelayTlsMode::Plain);
    assert_eq!(RelayTlsMode::from_config(Some("")), RelayTlsMode::Plain);
    assert_eq!(
        RelayTlsMode::from_config(Some("StartTLS")),
        RelayTlsMode::StartTls
    );
}

#[test]
fn starttls_reaches_auth_without_a_second_greeting() {
    let session = handshake(taken_stream().on_stream(false, Vec::new()));
    let session = resumed(session.on_handshake(TlsOutcome::Ready));
    assert!(session.encrypted);
    // The EHLO comes at once; the server no longer offers STARTTLS.
    let session = ehlo(session.on_resumed());
    expect_auth(session.on_ehlo(ehlo_ok(Some(false))), true);
}

#[test]
fn plaintext_behind_starttls_is_dropped() {
    let behind = b"250-mail.smtp2go.test\r\n250 AUTH PLAIN\r\n".to_vec();
    let session = handshake(taken_stream().on_stream(false, behind.clone()));
    let session = resumed(session.on_handshake(TlsOutcome::Ready));
    let session = ehlo(session.on_resumed());
    expect_auth(session.on_ehlo(ehlo_ok(Some(false))), true);

    for leftover in [Vec::new(), behind] {
        let session = handshake(taken_stream().on_stream(false, leftover));
        assert_eq!(
            failure(session.on_handshake(TlsOutcome::TimedOut)),
            (0, "TLS handshake timeout".to_string())
        );
    }
}

#[test]
fn implicit_tls_reaches_auth_over_tls() {
    let session = handshake(open_relay_session(session_params(RelayTlsMode::Implicit)));
    let session = match session.on_handshake(TlsOutcome::Ready) {
        RelayStep::OpenTls(session) => session,
        other => panic!("expected a start over TLS, got {other:?}"),
    };
    let session = ehlo(session.on_greeting(Ok(())));
    expect_auth(session.on_ehlo(ehlo_ok(None)), true);
}

#[test]
fn plain_session_reaches_auth() {
    let session = open_plain(open_relay_session(session_params(RelayTlsMode::Plain)));
    let session = ehlo(session.on_greeting(Ok(())));
    expect_auth(session.on_ehlo(ehlo_ok(Some(true))), false);
}

#[test]
fn session_without_user_is_ready_after_ehlo() {
    let mut params = session_params(RelayTlsMode::Plain);
    params.auth_username = None;
    let session = ehlo(open_plain(open_relay_session(params)).on_greeting(Ok(())));
    assert!(matches!(
        session.on_ehlo(ehlo_ok(None)),
        RelayStep::Done(Ok(()))
    ));
}

#[test]
fn user_without_password_sends_nothing() {
    for mode in [RelayTlsMode::StartTls, RelayTlsMode::Implicit, RelayTlsMode::Plain] {
        let mut params = session_params(mode);
        params.auth_password = None;
        assert_eq!(
            failure(open_relay_session(params)),
            (
                0,
                "relay AUTH username configured but password is missing".to_string()
            )
        );
    }
}

#[test]
fn starttls_must_be_advertised() {
    for offered in [Some(false), None] {
        let session = open_plain(open_relay_session(session_params(RelayTlsMode::StartTls)));
        let session = ehlo(session.on_greeting(Ok(())));
        assert_eq!(
            failure(session.on_ehlo(ehlo_ok(offered))),
            (
                0,
                "STARTTLS required but server did not advertise it".to_string()
            )
        );
    }
}

#[test]
fn rejected_commands_fail_with_their_code() {
    let session = open_plain(open_relay_session(session_params(RelayTlsMode::Plain)));
    let refused = Ok(EhloReply {
        reply: reply(550, "go away"),
        starttls: Some(true),
    });
    assert_eq!(
        failure(ehlo(session.on_greeting(Ok(()))).on_ehlo(refused)),
        (550, "EHLO rejected: 550 go away".to_string())
    );
    assert_eq!(
        failure(starttls_session().on_starttls(Ok(reply(454, "TLS not available")))),
        (454, "STARTTLS rejected: 454 TLS not available".to_string())
    );
    assert_eq!(
        smtp(on_auth(Ok(reply(535, "bad credentials"))).unwrap_err()),
        (535, "AUTH failed: 535 bad credentials".to_string())
    );
}

#[test]
fn handshake_failures_end_the_session() {
    let session = handshake(open_relay_session(session_params(RelayTlsMode::Implicit)));
    assert_eq!(
        failure(session.on_handshake(TlsOutcome::TimedOut)),
        (0, "TLS handshake timeout".to_string())
    );
    let session = handshake(open_relay_session(session_params(RelayTlsMode::Implicit)));
    assert!(matches!(
        session.on_handshake(TlsOutcome::Failed(SentioError::Other("cert".to_string()))),
        RelayStep::Done(Err(SentioError::Other(_)))
    ));
    assert_eq!(
        failure(taken_stream().on_stream(true, Vec::new())),
        (
            0,
            "STARTTLS issued on an already-encrypted connection".to_string()
        )
    );
}

#[test]
fn io_failures_pass_through() {
    let broken = || SentioError::Other("reset".to_string());
    let session = open_plain(open_relay_session(session_params(RelayTlsMode::Plain)));
    assert!(matches!(
        session.on_greeting(Err(broken())),
        RelayStep::Done(Err(SentioError::Other(_)))
    ));
    let session = open_plain(open_relay_session(session_params(RelayTlsMode::Plain)));
    assert!(matches!(
        ehlo(session.on_greeting(Ok(()))).on_ehlo(Err(broken())),
        RelayStep::Done(Err(SentioError::Other(_)))
    ));
    assert!(matches!(
        starttls_session().on_starttls(Err(broken())),
        RelayStep::Done(Err(SentioError::Other(_)))
    ));
    assert!(matches!(on_auth(Err(broken())), Err(SentioError::Other(_))));
}

#[test]
fn smtp_errors_carry_code_and_text() {
    assert_eq!(smtp(smtp_err("x")), (0, "x".to_string()));
    assert_eq!(smtp(smtp_err_code(421, "y".to_string())), (421, "y".to_string()));
}
