use lightdm_client::errors::{cancelled_error, ErrorKind, GreeterError};
use lightdm_client::greeter::Greeter;
use lightdm_client::requests::Request;
use lightdm_client::state::{AuthState, ConnState, SessionState};

#[test]
fn fresh_handle_is_idle_and_disconnected() {
    let g = Greeter::new();
    assert_eq!(g.conn, ConnState::Disconnected);
    assert_eq!(g.auth, AuthState::Idle);
    assert_eq!(g.session, SessionState::NoSession);
}

fn connected() -> Greeter {
    let mut g = Greeter::new();
    let r = g.connect_to_daemon().unwrap();
    assert_eq!(r, Request::Connect);
    assert_eq!(g.conn, ConnState::Connecting);
    g.complete_connect(true, None).unwrap();
    assert_eq!(g.conn, ConnState::Connected);
    g
}

#[test]
fn sync_connect_authenticate_respond_start_session() {
    // The full happy path: connect, authenticate "bob", answer the
    // password prompt, succeed, start the default session.
    let mut g = connected();

    let req = g.authenticate(Some("bob".to_string())).unwrap();
    assert_eq!(req, Request::Authenticate(Some("bob".to_string())));
    assert_eq!(g.auth, AuthState::AwaitingPrompt);

    // The daemon issues a password prompt.
    g.on_prompt().unwrap();
    assert_eq!(g.auth, AuthState::AwaitingPrompt);

    let req = g.respond("secret".to_string()).unwrap();
    assert_eq!(req, Request::Respond("secret".to_string()));
    assert_eq!(g.auth, AuthState::Responding);

    // The daemon signals success.
    g.on_authentication_complete(true).unwrap();
    assert_eq!(g.auth, AuthState::Authenticated);

    let req = g.start_session(None).unwrap();
    assert_eq!(req, Request::StartSession(None));
    assert_eq!(g.session, SessionState::Pending(None));

    g.complete_start_session(true, None).unwrap();
    // The final state reflects a dispatched default session.
    assert_eq!(g.session, SessionState::Dispatched(None));
    assert_eq!(g.auth, AuthState::Authenticated);
}

#[test]
fn guest_then_cancel_resolves_cancelled_and_respond_fails() {
    let mut g = connected();
    let req = g.authenticate_as_guest().unwrap();
    assert_eq!(req, Request::AuthenticateAsGuest);
    assert_eq!(g.auth, AuthState::AwaitingPrompt);

    let req = g.cancel_authentication().unwrap();
    assert_eq!(req, Request::CancelAuthentication);
    assert_eq!(g.auth, AuthState::Cancelled);

    let err = g.respond("too late".to_string()).unwrap_err();
    assert_eq!(err.kind, ErrorKind::ProtocolState);
    assert_eq!(g.auth, AuthState::Cancelled);
}

#[test]
fn respond_in_idle_fails_with_protocol_state() {
    let mut g = connected();
    let err = g.respond("nobody asked".to_string()).unwrap_err();
    assert_eq!(err.kind, ErrorKind::ProtocolState);
    assert_eq!(g.auth, AuthState::Idle);
}

#[test]
fn respond_when_authenticated_fails_with_protocol_state() {
    let mut g = connected();
    g.authenticate(None).unwrap();
    g.on_prompt().unwrap();
    g.respond("pw".to_string()).unwrap();
    g.on_authentication_complete(true).unwrap();
    assert_eq!(g.auth, AuthState::Authenticated);
    let err = g.respond("again".to_string()).unwrap_err();
    assert_eq!(err.kind, ErrorKind::ProtocolState);
    assert_eq!(g.auth, AuthState::Authenticated);
}

#[test]
fn second_authenticate_while_in_flight_is_rejected() {
    let mut g = connected();
    g.authenticate(Some("bob".to_string())).unwrap();
    assert_eq!(g.auth, AuthState::AwaitingPrompt);
    let err = g.authenticate(Some("mallory".to_string())).unwrap_err();
    assert_eq!(err.kind, ErrorKind::ProtocolState);
    assert_eq!(g.auth, AuthState::AwaitingPrompt);
    let err = g.authenticate_autologin().unwrap_err();
    assert_eq!(err.kind, ErrorKind::ProtocolState);
    assert_eq!(g.auth, AuthState::AwaitingPrompt);
}

#[test]
fn start_session_before_authenticated_fails_and_sends_nothing() {
    let mut g = connected();
    let r = g.start_session(Some("kde".to_string()));
    // A rejected call returns no request, so nothing reaches the daemon.
    let err = r.unwrap_err();
    assert_eq!(err.kind, ErrorKind::ProtocolState);
    assert_eq!(g.session, SessionState::NoSession);

    g.authenticate(None).unwrap();
    let err = g.start_session(None).unwrap_err();
    assert_eq!(err.kind, ErrorKind::ProtocolState);
    assert_eq!(g.session, SessionState::NoSession);
}

#[test]
fn authenticate_requires_connection() {
    let mut g = Greeter::new();
    let err = g.authenticate(Some("bob".to_string())).unwrap_err();
    assert_eq!(err.kind, ErrorKind::ProtocolState);
    assert_eq!(g.auth, AuthState::Idle);
}

#[test]
fn authenticate_variants_produce_their_requests() {
    let mut g = connected();
    let req = g
        .authenticate_remote("vnc".to_string(), Some("bob".to_string()))
        .unwrap();
    assert_eq!(
        req,
        Request::AuthenticateRemote("vnc".to_string(), Some("bob".to_string()))
    );
    assert_eq!(g.auth, AuthState::AwaitingPrompt);

    let mut g = connected();
    let req = g.authenticate_autologin().unwrap();
    assert_eq!(req, Request::AuthenticateAutologin);
    assert_eq!(g.auth, AuthState::AwaitingPrompt);
}

#[test]
fn connect_twice_is_rejected() {
    let mut g = connected();
    let err = g.connect_to_daemon().unwrap_err();
    assert_eq!(err.kind, ErrorKind::ProtocolState);
    assert_eq!(g.conn, ConnState::Connected);
}

#[test]
fn failed_connect_reports_the_daemon_error() {
    let mut g = Greeter::new();
    g.connect_to_daemon().unwrap();
    let e = GreeterError::new(
        ErrorKind::ConnectionPermissionDenied,
        "permission denied".to_string(),
    );
    let err = g.complete_connect(false, Some(e)).unwrap_err();
    assert_eq!(err.kind, ErrorKind::ConnectionPermissionDenied);
    assert_eq!(err.message, "permission denied");
    assert_eq!(g.conn, ConnState::Disconnected);
}

#[test]
fn bare_connect_failure_is_a_daemon_rejection() {
    let mut g = Greeter::new();
    g.connect_to_daemon().unwrap();
    let err = g.complete_connect(false, None).unwrap_err();
    assert_eq!(err.kind, ErrorKind::DaemonRejected);
    assert_eq!(g.conn, ConnState::Disconnected);
}

#[test]
fn connect_completion_without_pending_connect_is_rejected() {
    let mut g = Greeter::new();
    let err = g.complete_connect(true, None).unwrap_err();
    assert_eq!(err.kind, ErrorKind::ProtocolState);
    assert_eq!(g.conn, ConnState::Disconnected);
}

#[test]
fn failed_authentication_ends_in_failed() {
    let mut g = connected();
    g.authenticate(Some("bob".to_string())).unwrap();
    g.on_prompt().unwrap();
    g.respond("wrong".to_string()).unwrap();
    g.on_authentication_complete(false).unwrap();
    assert_eq!(g.auth, AuthState::Failed);
    let err = g.respond("wrong again".to_string()).unwrap_err();
    assert_eq!(err.kind, ErrorKind::ProtocolState);
}

#[test]
fn prompt_outside_a_sequence_is_rejected() {
    let mut g = connected();
    let err = g.on_prompt().unwrap_err();
    assert_eq!(err.kind, ErrorKind::ProtocolState);
    assert_eq!(g.auth, AuthState::Idle);
}

#[test]
fn cancel_is_valid_in_any_non_terminal_state() {
    // Idle is non-terminal: the abort request is still sent and the
    // sequence resolves to Cancelled.
    let mut g = connected();
    let req = g.cancel_authentication().unwrap();
    assert_eq!(req, Request::CancelAuthentication);
    assert_eq!(g.auth, AuthState::Cancelled);

    // Without a connection no abort request can be sent.
    let mut d = Greeter::new();
    let err = d.cancel_authentication().unwrap_err();
    assert_eq!(err.kind, ErrorKind::ProtocolState);
    assert_eq!(d.auth, AuthState::Idle);
}

#[test]
fn cancel_in_terminal_state_is_rejected() {
    let mut g = connected();
    g.authenticate_as_guest().unwrap();
    g.cancel_authentication().unwrap();
    let err = g.cancel_authentication().unwrap_err();
    assert_eq!(err.kind, ErrorKind::ProtocolState);
    assert_eq!(g.auth, AuthState::Cancelled);
}

#[test]
fn set_language_requires_authenticated() {
    let mut g = connected();
    let err = g.set_language("de_DE.UTF-8".to_string()).unwrap_err();
    assert_eq!(err.kind, ErrorKind::ProtocolState);
    g.authenticate(None).unwrap();
    g.on_authentication_complete(true).unwrap();
    let req = g.set_language("de_DE.UTF-8".to_string()).unwrap();
    assert_eq!(req, Request::SetLanguage("de_DE.UTF-8".to_string()));
}

#[test]
fn shared_data_dir_request_needs_only_a_connection() {
    let g = connected();
    // No ordering with the authentication sequence: valid while Idle.
    let req = g.ensure_shared_data_dir("alice".to_string()).unwrap();
    assert_eq!(req, Request::EnsureSharedDataDir("alice".to_string()));

    let d = Greeter::new();
    let err = d.ensure_shared_data_dir("alice".to_string()).unwrap_err();
    assert_eq!(err.kind, ErrorKind::ProtocolState);
}

#[test]
fn session_completion_without_pending_request_is_rejected() {
    let mut g = connected();
    let err = g.complete_start_session(true, None).unwrap_err();
    assert_eq!(err.kind, ErrorKind::ProtocolState);
    assert_eq!(g.session, SessionState::NoSession);
}

#[test]
fn failed_session_start_is_reported_and_not_dispatched() {
    let mut g = connected();
    g.authenticate(None).unwrap();
    g.on_authentication_complete(true).unwrap();
    g.start_session(Some("xfce".to_string())).unwrap();
    assert_eq!(g.session, SessionState::Pending(Some("xfce".to_string())));
    let e = GreeterError::new(ErrorKind::DaemonRejected, "no such session".to_string());
    let err = g.complete_start_session(false, Some(e)).unwrap_err();
    assert_eq!(err.kind, ErrorKind::DaemonRejected);
    assert_eq!(err.message, "no such session");
    assert_eq!(g.session, SessionState::NoSession);
}

#[test]
fn second_start_session_while_pending_is_rejected() {
    let mut g = connected();
    g.authenticate(None).unwrap();
    g.on_authentication_complete(true).unwrap();
    g.start_session(Some("xfce".to_string())).unwrap();
    let err = g.start_session(None).unwrap_err();
    assert_eq!(err.kind, ErrorKind::ProtocolState);
    assert_eq!(g.session, SessionState::Pending(Some("xfce".to_string())));
    g.complete_start_session(true, None).unwrap();
    assert_eq!(g.session, SessionState::Dispatched(Some("xfce".to_string())));
}

#[test]
fn cancelled_session_completion_reports_cancelled() {
    let mut g = connected();
    g.authenticate(None).unwrap();
    g.on_authentication_complete(true).unwrap();
    g.start_session(None).unwrap();
    // A cancellation resolves the pending operation with a definitive
    // `Cancelled` completion rather than leaving it hanging.
    let err = g
        .complete_start_session(false, Some(cancelled_error()))
        .unwrap_err();
    assert_eq!(err.kind, ErrorKind::Cancelled);
    assert_eq!(err.message, "the operation was cancelled");
    assert_eq!(g.session, SessionState::NoSession);
}

#[test]
fn transport_drop_fails_the_sequence_and_disconnects() {
    let mut g = connected();
    g.authenticate(Some("bob".to_string())).unwrap();
    let e = g.on_transport_down();
    assert_eq!(e.kind, ErrorKind::Transport);
    assert_eq!(g.conn, ConnState::Disconnected);
    assert_eq!(g.auth, AuthState::Failed);
    assert_eq!(g.session, SessionState::NoSession);
}
