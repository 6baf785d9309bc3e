//! The protocol states of one greeter handle.

use vstd::prelude::*;

verus! {

/// The state of the link between the greeter and the daemon.
#[derive(Clone, Copy, Debug, PartialEq, Eq, Structural)]
pub enum ConnState {
    /// No link is established.
    Disconnected,
    /// A connect request was submitted and its completion is pending.
    Connecting,
    /// The daemon acknowledged the connection.
    Connected,
}

/// The state of the authentication sequence of one handle.
///
/// A sequence runs `Idle -> AwaitingPrompt -> (Responding ->
/// AwaitingPrompt)* -> Authenticated | Failed | Cancelled`.  The three
/// last states are terminal for the sequence.
#[derive(Clone, Copy, Debug, PartialEq, Eq, Structural)]
pub enum AuthState {
    /// No authentication sequence was started.
    Idle,
    /// A sequence is in flight; the daemon owes a prompt or a result.
    AwaitingPrompt,
    /// An answer to the latest prompt was sent; the next daemon message
    /// is owed.
    Responding,
    /// The daemon reported that authentication succeeded.
    Authenticated,
    /// The daemon reported that authentication failed.
    Failed,
    /// The sequence was cancelled by the greeter.
    Cancelled,
}

/// The session-launch state of one handle.  A session spec of `None`
/// names the daemon's configured default session.
#[derive(Clone, Debug, PartialEq, Eq)]
pub enum SessionState {
    /// No session start is pending or acknowledged.
    NoSession,
    /// A start was submitted for this session spec and its completion is
    /// owed.
    Pending(Option<String>),
    /// The daemon acknowledged dispatch of this session spec.
    Dispatched(Option<String>),
}

/// Holds while an authentication sequence is in flight: a daemon message
/// about it is still owed.
pub open spec fn in_flight(s: AuthState) -> bool {
    s == AuthState::AwaitingPrompt || s == AuthState::Responding
}

/// Holds in the states that end an authentication sequence.
pub open spec fn terminal(s: AuthState) -> bool {
    s == AuthState::Authenticated || s == AuthState::Failed || s == AuthState::Cancelled
}

} // verus!
