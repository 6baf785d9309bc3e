//! The failure taxonomy of the client.

use vstd::prelude::*;

verus! {

/// What went wrong, by kind.  Every fallible operation of the library
/// reports exactly one of these, together with a human-readable message.
#[derive(Clone, Copy, Debug, PartialEq, Eq, Structural)]
pub enum ErrorKind {
    /// The daemon could not be reached when connecting.
    ConnectionUnreachable,
    /// The daemon speaks an incompatible protocol version.
    ConnectionVersionMismatch,
    /// The daemon refused the connection for lack of permission.
    ConnectionPermissionDenied,
    /// The operation is invalid in the current protocol state.
    ProtocolState,
    /// The daemon returned a structured failure for a well-formed request.
    DaemonRejected,
    /// The operation was cancelled before it completed.
    Cancelled,
    /// The link to the daemon dropped while an operation was pending.
    Transport,
}

/// One reported failure: a kind plus a human-readable message.
#[derive(Clone, Debug)]
pub struct GreeterError {
    pub kind: ErrorKind,
    pub message: String,
}

/// Holds when `r` failed with an error of kind `k`.
pub open spec fn failed_with<T>(r: Result<T, GreeterError>, k: ErrorKind) -> bool {
    r is Err && r->Err_0.kind == k
}

impl GreeterError {
    pub fn new(kind: ErrorKind, message: String) -> (r: GreeterError)
        ensures
            r.kind == kind,
            r.message == message,
    {
        GreeterError { kind, message }
    }

    pub fn kind(&self) -> (r: ErrorKind)
        ensures
            r == self.kind,
    {
        self.kind
    }
}

/// The error every operation returns when called in a protocol state
/// that does not allow it.
pub fn protocol_state_error() -> (r: GreeterError)
    ensures
        r.kind == ErrorKind::ProtocolState,
        r.message@ == "operation invalid in the current protocol state"@,
{
    GreeterError::new(
        ErrorKind::ProtocolState,
        "operation invalid in the current protocol state".to_owned(),
    )
}

/// The error a pending operation resolves with when the transport drops.
pub fn transport_error() -> (r: GreeterError)
    ensures
        r.kind == ErrorKind::Transport,
        r.message@ == "the link to the daemon dropped"@,
{
    GreeterError::new(ErrorKind::Transport, "the link to the daemon dropped".to_owned())
}

/// The error a pending operation resolves with when it is cancelled.
pub fn cancelled_error() -> (r: GreeterError)
    ensures
        r.kind == ErrorKind::Cancelled,
        r.message@ == "the operation was cancelled"@,
{
    GreeterError::new(ErrorKind::Cancelled, "the operation was cancelled".to_owned())
}

/// The error reported when the daemon signalled failure without details.
pub fn daemon_rejected_error() -> (r: GreeterError)
    ensures
        r.kind == ErrorKind::DaemonRejected,
        r.message@ == "the daemon rejected the request"@,
{
    GreeterError::new(ErrorKind::DaemonRejected, "the daemon rejected the request".to_owned())
}

} // verus!
