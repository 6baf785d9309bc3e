//! One greeter handle and its protocol transitions.
//!
//! The handle never touches the transport itself.  An operation that is
//! allowed in the current state returns the [`Request`] to send and moves
//! the state; one that is not returns a `ProtocolState` error and leaves
//! the state unchanged.  Daemon messages come back through the `complete_*`
//! and `on_*` methods, which the caller invokes with the raw reply —
//! whether it obtained the reply by blocking on the call or from an event
//! loop makes no difference to the handle.
//!
//! Every transition is stated by a `..._post` spec function, used verbatim
//! in the method's `ensures`; the laws of the protocol are proved over the
//! same functions in [`crate::laws`].

use vstd::prelude::*;

use crate::errors::{failed_with, protocol_state_error, transport_error, ErrorKind, GreeterError};
use crate::replies::decode_unit_reply;
use crate::requests::Request;
use crate::state::{in_flight, terminal, AuthState, ConnState, SessionState};

verus! {

/// One client connection to the daemon, as the client sees it.
#[derive(Clone, Debug)]
pub struct Greeter {
    /// The state of the link to the daemon.
    pub conn: ConnState,
    /// The state of the authentication sequence.
    pub auth: AuthState,
    /// The session-launch state.
    pub session: SessionState,
}

/// Consistency of a handle: what is true of every state a handle can
/// reach from [`Greeter::new`].  A sequence is in flight only while
/// connected, a session completion is owed only to a connected,
/// authenticated handle, and a session was dispatched only for an
/// authenticated one.
pub open spec fn consistent(g: Greeter) -> bool {
    &&& (in_flight(g.auth) ==> g.conn == ConnState::Connected)
    &&& (g.session is Pending ==> g.auth == AuthState::Authenticated && g.conn
        == ConnState::Connected)
    &&& (g.session is Dispatched ==> g.auth == AuthState::Authenticated)
}

/// An authentication sequence may be started: the handle is connected and
/// no sequence ran on it yet.
pub open spec fn can_start_auth(g: Greeter) -> bool {
    g.conn == ConnState::Connected && g.auth == AuthState::Idle
}

/// What each of the four `authenticate*` operations does: when allowed it
/// submits its request `req` and the sequence awaits the daemon; otherwise
/// it rejects the call and changes nothing.
pub open spec fn submit_auth_post(
    pre: Greeter,
    post: Greeter,
    r: Result<Request, GreeterError>,
    req: Request,
) -> bool {
    if can_start_auth(pre) {
        &&& post == (Greeter { auth: AuthState::AwaitingPrompt, ..pre })
        &&& r == Ok::<Request, GreeterError>(req)
    } else {
        &&& post == pre
        &&& failed_with(r, ErrorKind::ProtocolState)
    }
}

/// What `respond` does: valid only while a prompt is awaited.
pub open spec fn respond_post(
    pre: Greeter,
    post: Greeter,
    r: Result<Request, GreeterError>,
    response: String,
) -> bool {
    if pre.auth == AuthState::AwaitingPrompt {
        &&& post == (Greeter { auth: AuthState::Responding, ..pre })
        &&& r == Ok::<Request, GreeterError>(Request::Respond(response))
    } else {
        &&& post == pre
        &&& failed_with(r, ErrorKind::ProtocolState)
    }
}

/// What `cancel_authentication` does: valid in every non-terminal state
/// of a connected handle.
pub open spec fn cancel_post(
    pre: Greeter,
    post: Greeter,
    r: Result<Request, GreeterError>,
) -> bool {
    if pre.conn == ConnState::Connected && !terminal(pre.auth) {
        &&& post == (Greeter { auth: AuthState::Cancelled, ..pre })
        &&& r == Ok::<Request, GreeterError>(Request::CancelAuthentication)
    } else {
        &&& post == pre
        &&& failed_with(r, ErrorKind::ProtocolState)
    }
}

/// What `set_language` does: valid only once authenticated.
pub open spec fn set_language_post(
    g: Greeter,
    r: Result<Request, GreeterError>,
    language: String,
) -> bool {
    if g.conn == ConnState::Connected && g.auth == AuthState::Authenticated {
        r == Ok::<Request, GreeterError>(Request::SetLanguage(language))
    } else {
        failed_with(r, ErrorKind::ProtocolState)
    }
}

/// What `connect_to_daemon` does: valid only on an unconnected handle.
pub open spec fn connect_post(
    pre: Greeter,
    post: Greeter,
    r: Result<Request, GreeterError>,
) -> bool {
    if pre.conn == ConnState::Disconnected {
        &&& post == (Greeter { conn: ConnState::Connecting, ..pre })
        &&& r == Ok::<Request, GreeterError>(Request::Connect)
    } else {
        &&& post == pre
        &&& failed_with(r, ErrorKind::ProtocolState)
    }
}

/// How a connect completion moves the link: a reported error or a bare
/// failure leaves the handle disconnected, success connects it.
pub open spec fn connect_outcome(
    pre: Greeter,
    post: Greeter,
    r: Result<(), GreeterError>,
    is_ok: bool,
    error: Option<GreeterError>,
) -> bool {
    &&& (error matches Some(e) ==> post == (Greeter { conn: ConnState::Disconnected, ..pre })
        && r == Err::<(), GreeterError>(e))
    &&& (error is None && is_ok ==> post == (Greeter { conn: ConnState::Connected, ..pre }) && r
        == Ok::<(), GreeterError>(()))
    &&& (error is None && !is_ok ==> post == (Greeter { conn: ConnState::Disconnected, ..pre })
        && failed_with(r, ErrorKind::DaemonRejected))
}

/// What `complete_connect` does: decodes the completion of a pending
/// connect request; without one pending it rejects the call.
pub open spec fn complete_connect_post(
    pre: Greeter,
    post: Greeter,
    r: Result<(), GreeterError>,
    is_ok: bool,
    error: Option<GreeterError>,
) -> bool {
    if pre.conn == ConnState::Connecting {
        connect_outcome(pre, post, r, is_ok, error)
    } else {
        &&& post == pre
        &&& failed_with(r, ErrorKind::ProtocolState)
    }
}

/// What `on_prompt` does: a daemon prompt is expected only while a
/// sequence is in flight, and asks for the next answer.
pub open spec fn prompt_post(pre: Greeter, post: Greeter, r: Result<(), GreeterError>) -> bool {
    if in_flight(pre.auth) {
        &&& post == (Greeter { auth: AuthState::AwaitingPrompt, ..pre })
        &&& r == Ok::<(), GreeterError>(())
    } else {
        &&& post == pre
        &&& failed_with(r, ErrorKind::ProtocolState)
    }
}

/// What `on_authentication_complete` does: ends an in-flight sequence in
/// `Authenticated` or `Failed`.
pub open spec fn auth_complete_post(
    pre: Greeter,
    post: Greeter,
    r: Result<(), GreeterError>,
    success: bool,
) -> bool {
    if in_flight(pre.auth) {
        &&& post == (Greeter {
            auth: if success {
                AuthState::Authenticated
            } else {
                AuthState::Failed
            },
            ..pre
        })
        &&& r == Ok::<(), GreeterError>(())
    } else {
        &&& post == pre
        &&& failed_with(r, ErrorKind::ProtocolState)
    }
}

/// What `start_session` does: valid only on a connected, authenticated
/// handle with no session request already pending.  When rejected, no
/// request value exists, so the daemon is provably not contacted.
pub open spec fn start_session_post(
    pre: Greeter,
    post: Greeter,
    r: Result<Request, GreeterError>,
    session: Option<String>,
) -> bool {
    if pre.conn == ConnState::Connected && pre.auth == AuthState::Authenticated && !(pre.session
        is Pending) {
        &&& post == (Greeter { session: SessionState::Pending(session), ..pre })
        &&& r == Ok::<Request, GreeterError>(Request::StartSession(session))
    } else {
        &&& post == pre
        &&& failed_with(r, ErrorKind::ProtocolState)
    }
}

/// What `complete_start_session` does: decodes the completion of the
/// pending session request; success records the dispatched session.
pub open spec fn complete_start_session_post(
    pre: Greeter,
    post: Greeter,
    r: Result<(), GreeterError>,
    is_ok: bool,
    error: Option<GreeterError>,
) -> bool {
    if pre.session is Pending {
        &&& (error matches Some(e) ==> post == (Greeter {
            session: SessionState::NoSession,
            ..pre
        }) && r == Err::<(), GreeterError>(e))
        &&& (error is None && is_ok ==> post == (Greeter {
            session: SessionState::Dispatched(pre.session->Pending_0),
            ..pre
        }) && r == Ok::<(), GreeterError>(()))
        &&& (error is None && !is_ok ==> post == (Greeter {
            session: SessionState::NoSession,
            ..pre
        }) && failed_with(r, ErrorKind::DaemonRejected))
    } else {
        &&& post == pre
        &&& failed_with(r, ErrorKind::ProtocolState)
    }
}

/// What `ensure_shared_data_dir` does: needs only a connected handle, no
/// ordering with the authentication sequence, and changes no state.
pub open spec fn shared_dir_request_post(
    g: Greeter,
    r: Result<Request, GreeterError>,
    username: String,
) -> bool {
    if g.conn == ConnState::Connected {
        r == Ok::<Request, GreeterError>(Request::EnsureSharedDataDir(username))
    } else {
        failed_with(r, ErrorKind::ProtocolState)
    }
}

/// What `on_transport_down` does: the handle is disconnected, an in-flight
/// sequence fails, and no session completion is owed any more; an already
/// acknowledged dispatch stands.
pub open spec fn transport_down_post(pre: Greeter, post: Greeter, e: GreeterError) -> bool {
    &&& post.conn == ConnState::Disconnected
    &&& post.auth == (if in_flight(pre.auth) {
        AuthState::Failed
    } else {
        pre.auth
    })
    &&& post.session == (if pre.session is Pending {
        SessionState::NoSession
    } else {
        pre.session
    })
    &&& e.kind == ErrorKind::Transport
}

impl Greeter {
    /// A fresh handle: disconnected, no sequence started, no session.
    pub fn new() -> (g: Greeter)
        ensures
            g.conn == ConnState::Disconnected,
            g.auth == AuthState::Idle,
            g.session == SessionState::NoSession,
    {
        Greeter {
            conn: ConnState::Disconnected,
            auth: AuthState::Idle,
            session: SessionState::NoSession,
        }
    }

    /// Submits the connect request.
    pub fn connect_to_daemon(&mut self) -> (r: Result<Request, GreeterError>)
        ensures
            connect_post(*old(self), *final(self), r),
    {
        if self.conn == ConnState::Disconnected {
            self.conn = ConnState::Connecting;
            Ok(Request::Connect)
        } else {
            Err(protocol_state_error())
        }
    }

    /// Feeds back the completion of the pending connect request, as the
    /// raw success flag and optional error the daemon answered with.
    pub fn complete_connect(&mut self, is_ok: bool, error: Option<GreeterError>) -> (r: Result<
        (),
        GreeterError,
    >)
        ensures
            complete_connect_post(*old(self), *final(self), r, is_ok, error),
    {
        if self.conn == ConnState::Connecting {
            let decoded = decode_unit_reply(is_ok, error);
            match decoded {
                Ok(()) => {
                    self.conn = ConnState::Connected;
                    Ok(())
                },
                Err(e) => {
                    self.conn = ConnState::Disconnected;
                    Err(e)
                },
            }
        } else {
            Err(protocol_state_error())
        }
    }

    /// Starts authentication for the named user, or for a username the
    /// daemon will prompt for.
    pub fn authenticate(&mut self, username: Option<String>) -> (r: Result<Request, GreeterError>)
        ensures
            submit_auth_post(*old(self), *final(self), r, Request::Authenticate(username)),
    {
        if self.conn == ConnState::Connected && self.auth == AuthState::Idle {
            self.auth = AuthState::AwaitingPrompt;
            Ok(Request::Authenticate(username))
        } else {
            Err(protocol_state_error())
        }
    }

    /// Starts authentication for the guest account.
    pub fn authenticate_as_guest(&mut self) -> (r: Result<Request, GreeterError>)
        ensures
            submit_auth_post(*old(self), *final(self), r, Request::AuthenticateAsGuest),
    {
        if self.conn == ConnState::Connected && self.auth == AuthState::Idle {
            self.auth = AuthState::AwaitingPrompt;
            Ok(Request::AuthenticateAsGuest)
        } else {
            Err(protocol_state_error())
        }
    }

    /// Starts authentication for the autologin account.
    pub fn authenticate_autologin(&mut self) -> (r: Result<Request, GreeterError>)
        ensures
            submit_auth_post(*old(self), *final(self), r, Request::AuthenticateAutologin),
    {
        if self.conn == ConnState::Connected && self.auth == AuthState::Idle {
            self.auth = AuthState::AwaitingPrompt;
            Ok(Request::AuthenticateAutologin)
        } else {
            Err(protocol_state_error())
        }
    }

    /// Starts authentication for a remote session type.
    pub fn authenticate_remote(&mut self, session: String, username: Option<String>) -> (r: Result<
        Request,
        GreeterError,
    >)
        ensures
            submit_auth_post(
                *old(self),
                *final(self),
                r,
                Request::AuthenticateRemote(session, username),
            ),
    {
        if self.conn == ConnState::Connected && self.auth == AuthState::Idle {
            self.auth = AuthState::AwaitingPrompt;
            Ok(Request::AuthenticateRemote(session, username))
        } else {
            Err(protocol_state_error())
        }
    }

    /// Answers the most recently issued prompt.
    pub fn respond(&mut self, response: String) -> (r: Result<Request, GreeterError>)
        ensures
            respond_post(*old(self), *final(self), r, response),
    {
        if self.auth == AuthState::AwaitingPrompt {
            self.auth = AuthState::Responding;
            Ok(Request::Respond(response))
        } else {
            Err(protocol_state_error())
        }
    }

    /// Asks the daemon to abort the authentication sequence.
    pub fn cancel_authentication(&mut self) -> (r: Result<Request, GreeterError>)
        ensures
            cancel_post(*old(self), *final(self), r),
    {
        if self.conn == ConnState::Connected && !(self.auth == AuthState::Authenticated
            || self.auth == AuthState::Failed || self.auth == AuthState::Cancelled) {
            self.auth = AuthState::Cancelled;
            Ok(Request::CancelAuthentication)
        } else {
            Err(protocol_state_error())
        }
    }

    /// Sets the language of the authenticated user.
    pub fn set_language(&self, language: String) -> (r: Result<Request, GreeterError>)
        ensures
            set_language_post(*self, r, language),
    {
        if self.conn == ConnState::Connected && self.auth == AuthState::Authenticated {
            Ok(Request::SetLanguage(language))
        } else {
            Err(protocol_state_error())
        }
    }

    /// A daemon prompt arrived for the in-flight sequence.
    pub fn on_prompt(&mut self) -> (r: Result<(), GreeterError>)
        ensures
            prompt_post(*old(self), *final(self), r),
    {
        if self.auth == AuthState::AwaitingPrompt || self.auth == AuthState::Responding {
            self.auth = AuthState::AwaitingPrompt;
            Ok(())
        } else {
            Err(protocol_state_error())
        }
    }

    /// The daemon reported the outcome of the in-flight sequence.
    pub fn on_authentication_complete(&mut self, success: bool) -> (r: Result<(), GreeterError>)
        ensures
            auth_complete_post(*old(self), *final(self), r, success),
    {
        if self.auth == AuthState::AwaitingPrompt || self.auth == AuthState::Responding {
            self.auth = if success {
                AuthState::Authenticated
            } else {
                AuthState::Failed
            };
            Ok(())
        } else {
            Err(protocol_state_error())
        }
    }

    /// Submits the request to start the named session, or the daemon's
    /// configured default.
    pub fn start_session(&mut self, session: Option<String>) -> (r: Result<Request, GreeterError>)
        ensures
            start_session_post(*old(self), *final(self), r, session),
    {
        let pending = match self.session {
            SessionState::Pending(_) => true,
            _ => false,
        };
        if self.conn == ConnState::Connected && self.auth == AuthState::Authenticated
            && !pending {
            let spec_copy = match &session {
                Some(name) => Some(name.clone()),
                None => None,
            };
            self.session = SessionState::Pending(spec_copy);
            Ok(Request::StartSession(session))
        } else {
            Err(protocol_state_error())
        }
    }

    /// Feeds back the completion of the pending start-session request.
    pub fn complete_start_session(&mut self, is_ok: bool, error: Option<GreeterError>) -> (r:
        Result<(), GreeterError>)
        ensures
            complete_start_session_post(*old(self), *final(self), r, is_ok, error),
    {
        let mut taken = SessionState::NoSession;
        core::mem::swap(&mut taken, &mut self.session);
        match taken {
            SessionState::Pending(spec) => {
                let decoded = decode_unit_reply(is_ok, error);
                match decoded {
                    Ok(()) => {
                        self.session = SessionState::Dispatched(spec);
                        Ok(())
                    },
                    Err(e) => Err(e),
                }
            },
            other => {
                self.session = other;
                Err(protocol_state_error())
            },
        }
    }

    /// Submits the request to ensure the data directory shared with the
    /// named user exists.
    pub fn ensure_shared_data_dir(&self, username: String) -> (r: Result<Request, GreeterError>)
        ensures
            shared_dir_request_post(*self, r, username),
    {
        if self.conn == ConnState::Connected {
            Ok(Request::EnsureSharedDataDir(username))
        } else {
            Err(protocol_state_error())
        }
    }

    /// The link to the daemon dropped.  Returns the error every still
    /// pending completion must be resolved with, so that none is left
    /// unresolved.
    pub fn on_transport_down(&mut self) -> (e: GreeterError)
        ensures
            transport_down_post(*old(self), *final(self), e),
    {
        self.conn = ConnState::Disconnected;
        if self.auth == AuthState::AwaitingPrompt || self.auth == AuthState::Responding {
            self.auth = AuthState::Failed;
        }
        let pending = match self.session {
            SessionState::Pending(_) => true,
            _ => false,
        };
        if pending {
            self.session = SessionState::NoSession;
        }
        transport_error()
    }
}

} // verus!
