//! The outbound messages of the client.
//!
//! Every operation that contacts the daemon does so by returning one of
//! these values; the caller owns the transport and performs it.  An
//! operation that fails returns no request, so a failed operation
//! provably never contacts the daemon.

use vstd::prelude::*;

verus! {

/// One request to be sent to the daemon.
#[derive(Clone, Debug, PartialEq, Eq)]
pub enum Request {
    /// Establish the link to the daemon.
    Connect,
    /// Start authentication for the named user, or prompt for a username.
    Authenticate(Option<String>),
    /// Start authentication for the guest account.
    AuthenticateAsGuest,
    /// Start authentication for the autologin account.
    AuthenticateAutologin,
    /// Start authentication for a remote session type and an optional
    /// username.
    AuthenticateRemote(String, Option<String>),
    /// Answer the most recently issued prompt.
    Respond(String),
    /// Ask the daemon to abort the authentication sequence.
    CancelAuthentication,
    /// Start the named session, or the daemon's configured default.
    StartSession(Option<String>),
    /// Ensure the data directory shared with the named user exists.
    EnsureSharedDataDir(String),
    /// Set the language of the authenticated user.
    SetLanguage(String),
}

} // verus!
