//! Client-side model of a display-manager greeter protocol.
//!
//! A greeter process talks to a privileged daemon over a private IPC
//! channel: it connects, drives a challenge/response authentication
//! exchange for a named user (or the guest / autologin account), asks the
//! daemon to start a session once authentication succeeded, and may ask
//! the daemon to provision a data directory shared with a target user.
//!
//! This crate verifies the decisions of that client: which requests may
//! be sent in which protocol state, how a daemon reply changes the state,
//! how raw completion values are decoded into results, and the bookkeeping
//! that makes every asynchronous completion fire exactly once.  The
//! transport itself (the IPC channel and the daemon behind it) is outside
//! the library: callers perform each returned [`requests::Request`] and
//! feed the daemon's answer back in.

pub mod bridge;
pub mod errors;
pub mod greeter;
pub mod laws;
pub mod provisioner;
pub mod replies;
pub mod requests;
pub mod state;
