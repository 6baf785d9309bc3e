//! The laws of the protocol client, proved over the same transition
//! predicates that the executable methods are verified against.

use vstd::prelude::*;

use crate::bridge::{bridge_inv, complete_post, fail_all_post, Bridge};
use crate::errors::{failed_with, ErrorKind, GreeterError};
use crate::greeter::{
    auth_complete_post, cancel_post, complete_connect_post, complete_start_session_post,
    connect_post, consistent, prompt_post, respond_post, start_session_post, submit_auth_post,
    transport_down_post, Greeter,
};
use crate::provisioner::{ensure_post, has_dir, DirProvisioner};
use crate::requests::Request;
use crate::state::{in_flight, AuthState};

verus! {

/// One step of a handle: some operation of [`Greeter`] related `pre` to
/// `post` (or nothing ran).
pub open spec fn protocol_step(pre: Greeter, post: Greeter) -> bool {
    ||| exists|r: Result<Request, GreeterError>, req: Request| submit_auth_post(pre, post, r, req)
    ||| exists|r: Result<Request, GreeterError>, response: String|
        respond_post(pre, post, r, response)
    ||| exists|r: Result<Request, GreeterError>| cancel_post(pre, post, r)
    ||| exists|r: Result<Request, GreeterError>| connect_post(pre, post, r)
    ||| exists|r: Result<(), GreeterError>, is_ok: bool, error: Option<GreeterError>|
        complete_connect_post(pre, post, r, is_ok, error)
    ||| exists|r: Result<(), GreeterError>| prompt_post(pre, post, r)
    ||| exists|r: Result<(), GreeterError>, success: bool|
        auth_complete_post(pre, post, r, success)
    ||| exists|r: Result<Request, GreeterError>, session: Option<String>|
        start_session_post(pre, post, r, session)
    ||| exists|r: Result<(), GreeterError>, is_ok: bool, error: Option<GreeterError>|
        complete_start_session_post(pre, post, r, is_ok, error)
    ||| exists|e: GreeterError| transport_down_post(pre, post, e)
    ||| post == pre
}

/// Law: consistency is an invariant of the protocol.  A fresh handle is
/// consistent, and every operation keeps it so: in particular a handle
/// never owes more than one authentication sequence or session completion
/// at a time, whatever is called on it.
pub proof fn lemma_steps_preserve_consistency(pre: Greeter, post: Greeter)
    requires
        consistent(pre),
        protocol_step(pre, post),
    ensures
        consistent(post),
{
}

/// Law: a handle runs at most one authentication sequence at a time.
/// While one is in flight — a prompt or an outcome is still owed — every
/// further `authenticate*` call is rejected with a `ProtocolState` error
/// and starts nothing: the handle is exactly as before, so no second
/// sequence can ever be awaiting a prompt.
pub proof fn lemma_single_sequence_in_flight(
    pre: Greeter,
    post: Greeter,
    r: Result<Request, GreeterError>,
    req: Request,
)
    requires
        in_flight(pre.auth),
        submit_auth_post(pre, post, r, req),
    ensures
        failed_with(r, ErrorKind::ProtocolState),
        post == pre,
{
}

/// Law: `respond` called while the sequence is `Idle` or already
/// `Authenticated` always fails with a `ProtocolState` error and never
/// silently succeeds: no answer is sent and the handle is unchanged.
pub proof fn lemma_respond_needs_pending_prompt(
    pre: Greeter,
    post: Greeter,
    r: Result<Request, GreeterError>,
    response: String,
)
    requires
        pre.auth == AuthState::Idle || pre.auth == AuthState::Authenticated,
        respond_post(pre, post, r, response),
    ensures
        failed_with(r, ErrorKind::ProtocolState),
        post == pre,
{
}

/// Law: `start_session` before the sequence reached `Authenticated`
/// always fails with a precondition error and never contacts the daemon:
/// the only channel to the daemon is a returned [`Request`], and a
/// rejected call returns none and leaves the handle unchanged.
pub proof fn lemma_start_session_requires_authentication(
    pre: Greeter,
    post: Greeter,
    r: Result<Request, GreeterError>,
    session: Option<String>,
)
    requires
        pre.auth != AuthState::Authenticated,
        start_session_post(pre, post, r, session),
    ensures
        failed_with(r, ErrorKind::ProtocolState),
        post == pre,
{
}

/// Law: ensuring the same user's shared directory twice is idempotent.
/// Both calls return the same path, the directory is created at most once
/// (never by the second call), and the second call changes nothing.
pub proof fn lemma_shared_dir_idempotent(
    pre: DirProvisioner,
    mid: DirProvisioner,
    post: DirProvisioner,
    user: Seq<char>,
    path1: Seq<char>,
    created1: bool,
    path2: Seq<char>,
    created2: bool,
)
    requires
        ensure_post(pre, mid, user, path1, created1),
        ensure_post(mid, post, user, path2, created2),
    ensures
        path1 == path2,
        !created2,
        created1 == !has_dir(pre, user),
        forall|u: Seq<char>| #[trigger] has_dir(post, u) <==> has_dir(mid, u),
{
    assert(has_dir(mid, user));
    assert forall|u: Seq<char>| #[trigger] has_dir(post, u) <==> has_dir(mid, u) by {
        if u == user {
            assert(has_dir(mid, u));
        }
    }
}

/// Law: a registered continuation fires at most once.  Once a completion
/// resolved it, resolving the same identifier again fires nothing and
/// changes nothing.
pub proof fn lemma_continuation_fires_once(
    pre: Bridge,
    mid: Bridge,
    post: Bridge,
    id: u64,
    fired1: bool,
    fired2: bool,
)
    requires
        bridge_inv(pre),
        complete_post(pre, mid, id, fired1),
        complete_post(mid, post, id, fired2),
    ensures
        !(fired1 && fired2),
        fired1 ==> post == mid,
{
    if fired1 {
        assert(!mid.pending@.contains(id));
    }
}

/// Law: when the transport fails mid-flight, every pending continuation
/// is resolved exactly once — each pending identifier appears once in the
/// resolved list, is fired afterwards, and none is left pending.
pub proof fn lemma_transport_failure_resolves_each_once(
    pre: Bridge,
    post: Bridge,
    resolved: Seq<u64>,
)
    requires
        bridge_inv(pre),
        fail_all_post(pre, post, resolved),
    ensures
        resolved.no_duplicates(),
        forall|x: u64| #[trigger] resolved.contains(x) <==> pre.pending@.contains(x),
        post.pending@.len() == 0,
        forall|x: u64| pre.pending@.contains(x) ==> #[trigger] post.fired@.contains(x),
{
    assert forall|x: u64| pre.pending@.contains(x) implies #[trigger] post.fired@.contains(
        x,
    ) by {
        let j = choose|j: int| 0 <= j < pre.pending@.len() && pre.pending@[j] == x;
        assert(post.fired@[pre.fired@.len() + j] == x);
    }
}

} // verus!
