//! Laws of the login flow that hold across several calls.
use crate::callback::CallbackParams;
use crate::error::ErrorKind;
use crate::session::{
    callback_failure, callback_step, completion_step, no_pending, AuthState, PENDING_TTL_SECS,
};
use crate::store::{
    cleared, recorded, signed_out, status_of, stored_tokens, PendingAuth, SessionStore,
};
use crate::token::{refreshed, TokenResponse, TokenSet, DEFAULT_EXPIRES_IN};
use vstd::prelude::*;

verus! {

/// A callback that does not find another one in progress leaves no pending
/// login behind, whatever its outcome.
pub proof fn lemma_callback_leaves_no_pending(
    a0: AuthState,
    s0: SessionStore,
    params: CallbackParams,
    now: i64,
    a1: AuthState,
    s1: SessionStore,
    failure: Option<ErrorKind>,
)
    requires
        callback_step(a0, s0, params, now, a1, s1, failure),
        !a0.processing,
    ensures
        no_pending(a1, s1),
{
}

/// A well-formed callback whose state differs from the pending login's, and
/// that is still within the time limit, fails with a state mismatch and
/// leaves no pending login.
pub proof fn lemma_state_mismatch(
    a0: AuthState,
    s0: SessionStore,
    params: CallbackParams,
    pending: PendingAuth,
    now: i64,
    a1: AuthState,
    s1: SessionStore,
    failure: Option<ErrorKind>,
)
    requires
        callback_step(a0, s0, params, now, a1, s1, failure),
        !a0.processing,
        params.error is None,
        params.code is Some,
        params.state is Some,
        a0.pending == Some(pending) || (a0.pending is None && s0.pending == Some(pending)),
        now - pending.created_at <= PENDING_TTL_SECS,
        pending.state@ != params.state->0@,
    ensures
        failure == Some(ErrorKind::StateMismatch),
        no_pending(a1, s1),
{
}

/// A callback that was accepted and completed cannot be accepted again: the
/// same redirect delivered once more fails with no pending state.
pub proof fn lemma_callback_not_replayable(
    a0: AuthState,
    s0: SessionStore,
    a1: AuthState,
    s1: SessionStore,
    a2: AuthState,
    s2: SessionStore,
    a3: AuthState,
    s3: SessionStore,
    params: CallbackParams,
    first: i64,
    second: i64,
    failure: Option<ErrorKind>,
)
    requires
        callback_step(a0, s0, params, first, a1, s1, None),
        completion_step(a1, s1, a2, s2),
        callback_step(a2, s2, params, second, a3, s3, failure),
    ensures
        failure == Some(ErrorKind::NoPendingState),
{
}

/// While an accepted callback awaits its exchange, any other callback fails
/// as already processing and changes nothing.
pub proof fn lemma_single_flight(
    a0: AuthState,
    s0: SessionStore,
    a1: AuthState,
    s1: SessionStore,
    a2: AuthState,
    s2: SessionStore,
    first_params: CallbackParams,
    second_params: CallbackParams,
    first: i64,
    second: i64,
    failure: Option<ErrorKind>,
)
    requires
        callback_step(a0, s0, first_params, first, a1, s1, None),
        callback_step(a1, s1, second_params, second, a2, s2, failure),
    ensures
        failure == Some(ErrorKind::AlreadyProcessing),
        a2 == a1,
        s2 == s1,
{
}

/// Once an accepted callback has completed, no later callback reaches the
/// exchange for the same pending login: every one of them fails.
pub proof fn lemma_one_exchange_per_login(
    a0: AuthState,
    s0: SessionStore,
    a1: AuthState,
    s1: SessionStore,
    a2: AuthState,
    s2: SessionStore,
    a3: AuthState,
    s3: SessionStore,
    first_params: CallbackParams,
    second_params: CallbackParams,
    first: i64,
    second: i64,
    failure: Option<ErrorKind>,
)
    requires
        callback_step(a0, s0, first_params, first, a1, s1, None),
        completion_step(a1, s1, a2, s2),
        callback_step(a2, s2, second_params, second, a3, s3, failure),
    ensures
        failure is Some,
{
}

/// A pending login created at `t` is refused as expired at `t + 601` and
/// accepted at `t + 599` and at `t + 600`: the time limit is inclusive.
pub proof fn lemma_pending_time_limit(params: CallbackParams, pending: PendingAuth, t: i64)
    requires
        params.error is None,
        params.code is Some,
        params.state is Some,
        pending.state@ == params.state->0@,
        pending.created_at == t,
        t + 601 <= i64::MAX,
    ensures
        callback_failure(false, params, Some(pending), (t + 601) as i64) == Some(
            ErrorKind::PendingExpired,
        ),
        callback_failure(false, params, Some(pending), (t + 600) as i64) is None,
        callback_failure(false, params, Some(pending), (t + 599) as i64) is None,
{
}

/// After a logout the status is signed out with no expiry, and neither the
/// vault nor the application store holds tokens.
pub proof fn lemma_logout_signs_out(s0: SessionStore, s1: SessionStore, now: i64)
    requires
        cleared(s0, s1),
    ensures
        status_of(stored_tokens(s1), now) == signed_out(),
        stored_tokens(s1) is None,
        s1.vault_tokens is None,
        s1.app_tokens is None,
{
}

/// A refresh answer received at `now` and then recorded leaves stored tokens
/// that expire `expires_in` seconds after `now` (an hour when the answer
/// gives no lifetime), and that keep the previous refresh token when the
/// answer names none.
pub proof fn lemma_refresh_sets_expiry(
    resp: TokenResponse,
    previous: Seq<char>,
    now: i64,
    t: TokenSet,
    s0: SessionStore,
    s1: SessionStore,
)
    requires
        refreshed(resp, previous, now, t),
        recorded(s0, t, s1),
    ensures
        stored_tokens(s1) is Some,
        resp.expires_in matches Some(n) ==> stored_tokens(s1)->0.expires_at == now + n,
        resp.expires_in is None ==> stored_tokens(s1)->0.expires_at == now + DEFAULT_EXPIRES_IN,
        resp.refresh_token is None ==> stored_tokens(s1)->0.refresh_token->0@ == previous,
{
}

} // verus!
