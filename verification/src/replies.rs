//! Decoding of raw daemon completions.
//!
//! The daemon answers a request with a success flag (or a returned value)
//! and at most one error.  These functions turn that raw pair into a
//! single result, so that no reported error is ever dropped and a failure
//! without details is still reported.

use vstd::prelude::*;

use crate::errors::{daemon_rejected_error, ErrorKind, GreeterError};

verus! {

/// Decodes the completion of a request that returns no value.
///
/// A reported error wins; a failure flag without an error is reported as
/// a rejection by the daemon; otherwise the operation succeeded.
pub fn decode_unit_reply(is_ok: bool, error: Option<GreeterError>) -> (r: Result<
    (),
    GreeterError,
>)
    ensures
        error matches Some(e) ==> r == Err::<(), GreeterError>(e),
        error is None && is_ok ==> r == Ok::<(), GreeterError>(()),
        error is None && !is_ok ==> r is Err && r->Err_0.kind == ErrorKind::DaemonRejected,
{
    match error {
        Some(e) => Err(e),
        None => {
            if is_ok {
                Ok(())
            } else {
                Err(daemon_rejected_error())
            }
        },
    }
}

/// Decodes the completion of a request that returns a path.
///
/// A reported error wins; a missing path without an error is reported as
/// a rejection by the daemon; otherwise the path is handed through.
pub fn decode_path_reply(path: Option<String>, error: Option<GreeterError>) -> (r: Result<
    String,
    GreeterError,
>)
    ensures
        error matches Some(e) ==> r == Err::<String, GreeterError>(e),
        error is None && path is Some ==> r == Ok::<String, GreeterError>(path->Some_0),
        error is None && path is None ==> r is Err && r->Err_0.kind == ErrorKind::DaemonRejected,
{
    match error {
        Some(e) => Err(e),
        None => {
            match path {
                Some(p) => Ok(p),
                None => Err(daemon_rejected_error()),
            }
        },
    }
}

} // verus!
