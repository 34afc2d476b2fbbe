use crate::authorize::{authorization_pairs, build_authorization_url, url_parses, url_with_query};
use crate::callback::{callback_params, classify_callback, denial_text, first_value, query_pairs_of, CallbackParams};
use crate::error::{failure_of, AuthError, ErrorKind};
use crate::pkce::{challenge_of, generate_state, generate_verifier, pkce_challenge, encodes_bytes, all_urlsafe};
use crate::provider::{string_option_view, ProviderConfig};
use crate::store::{
    same_tokens, signed_in, signed_out, stored_tokens, AuthStatus, PendingAuth, SessionStore,
};
use crate::token::TokenSet;
use vstd::prelude::*;

verus! {

/// How long a pending login stays valid after it was prepared, in seconds.
pub const PENDING_TTL_SECS: i64 = 600;

/// Tokens that expire within this many seconds are refreshed.
pub const REFRESH_WINDOW_SECS: i64 = 60;

/// What a prepared login hands to the browser and to the caller.
#[derive(Debug)]
pub struct PrepareLoginResponse {
    pub state: String,
    pub code_verifier: String,
    pub code_challenge: String,
    pub authorization_url: String,
}

/// The in-process state of the login flow.
#[derive(Debug)]
pub struct AuthState {
    pub pending: Option<PendingAuth>,
    /// Set while a callback is being processed.
    pub processing: bool,
    /// The provider of the latest login, kept for refreshes.
    pub provider: Option<ProviderConfig>,
}

/// The pending login a callback would use: the in-memory one, else the stored one.
pub open spec fn current_pending(a: AuthState, s: SessionStore) -> Option<PendingAuth> {
    if a.pending is Some {
        a.pending
    } else {
        s.pending
    }
}

pub open spec fn no_pending(a: AuthState, s: SessionStore) -> bool {
    a.pending is None && s.pending is None
}

/// Whether a pending login created at `created_at` is too old at `now`.
/// A login exactly `PENDING_TTL_SECS` old is still accepted.
pub open spec fn expired(created_at: i64, now: i64) -> bool {
    now - created_at > PENDING_TTL_SECS
}

/// Why a callback with `params` fails, checked in order; none when it goes
/// on to the code exchange.
pub open spec fn callback_failure(
    processing: bool,
    params: CallbackParams,
    pending: Option<PendingAuth>,
    now: i64,
) -> Option<ErrorKind> {
    if processing {
        Some(ErrorKind::AlreadyProcessing)
    } else if params.error is Some {
        if params.state is None {
            Some(ErrorKind::MissingState)
        } else {
            Some(ErrorKind::AuthorizationDenied)
        }
    } else if params.code is None {
        Some(ErrorKind::MissingCode)
    } else if params.state is None {
        Some(ErrorKind::MissingState)
    } else if pending is None {
        Some(ErrorKind::NoPendingState)
    } else if expired(pending->0.created_at, now) {
        Some(ErrorKind::PendingExpired)
    } else if pending->0.state@ != params.state->0@ {
        Some(ErrorKind::StateMismatch)
    } else {
        None
    }
}

/// One callback step from (`a0`, `s0`) to (`a1`, `s1`) that ended with `failure`.
///
/// A callback that finds another in progress changes nothing. Any other
/// leaves no pending login behind, and holds the processing flag exactly when
/// it goes on to the exchange.
pub open spec fn callback_step(
    a0: AuthState,
    s0: SessionStore,
    params: CallbackParams,
    now: i64,
    a1: AuthState,
    s1: SessionStore,
    failure: Option<ErrorKind>,
) -> bool {
    &&& failure == callback_failure(a0.processing, params, current_pending(a0, s0), now)
    &&& a0.processing ==> a1 == a0 && s1 == s0
    &&& !a0.processing ==> {
        &&& no_pending(a1, s1)
        &&& a1.processing == (failure is None)
        &&& a1.provider == a0.provider
        &&& same_tokens(s0, s1)
        &&& s1.provider == s0.provider
    }
}

/// What a code exchange needs once a callback has been accepted.
#[derive(Debug)]
pub struct CodeExchange {
    pub code: String,
    pub code_verifier: String,
    pub provider: ProviderConfig,
}

/// The provider a refresh uses: the cached one, else the stored one.
pub open spec fn cached_provider(a: AuthState, s: SessionStore) -> Option<ProviderConfig> {
    if a.provider is Some {
        a.provider
    } else {
        s.provider
    }
}

/// Whether tokens expiring at `expires_at` are still fresh at `now`: more
/// than `REFRESH_WINDOW_SECS` of their lifetime is left.
pub open spec fn fresh(expires_at: i64, now: i64) -> bool {
    expires_at - now > REFRESH_WINDOW_SECS
}

/// What a refresh check decides.
#[derive(Debug)]
pub enum RefreshStep {
    /// No refresh is needed; this is the status to report.
    Current(AuthStatus),
    /// The tokens must be refreshed with this request.
    Refresh(RefreshRequest),
}

/// What a refresh-token grant needs.
#[derive(Debug)]
pub struct RefreshRequest {
    pub provider: ProviderConfig,
    pub refresh_token: String,
}

/// Whether `r` asks for a refresh with `refresh_token` at the provider `c`.
pub open spec fn refresh_requested(
    r: Result<RefreshStep, AuthError>,
    refresh_token: String,
    c: ProviderConfig,
) -> bool {
    r matches Ok(RefreshStep::Refresh(q)) && q.refresh_token == refresh_token && q.provider@ == c@
}

/// Whether `pending` is a login with these values.
pub open spec fn pending_is(
    pending: Option<PendingAuth>,
    state: String,
    code_verifier: String,
    provider: ProviderConfig,
    created_at: i64,
) -> bool {
    pending matches Some(p) && p.state == state && p.code_verifier == code_verifier && p.provider@
        == provider@ && p.created_at == created_at
}

/// Whether `p` holds the first value of each parameter in the query of `url`.
pub open spec fn params_of_url(p: CallbackParams, url: Seq<char>) -> bool {
    &&& string_option_view(p.error) == first_value(query_pairs_of(url), "error"@)
    &&& string_option_view(p.error_description) == first_value(
        query_pairs_of(url),
        "error_description"@,
    )
    &&& string_option_view(p.state) == first_value(query_pairs_of(url), "state"@)
    &&& string_option_view(p.code) == first_value(query_pairs_of(url), "code"@)
}

/// Completing a callback releases the processing flag and leaves the pending
/// login as it was.
pub open spec fn completion_step(a1: AuthState, s1: SessionStore, a2: AuthState, s2: SessionStore) -> bool {
    &&& !a2.processing
    &&& a2.pending == a1.pending
    &&& a2.provider == a1.provider
    &&& s2.pending == s1.pending
    &&& s2.vault_available == s1.vault_available
}

impl AuthState {
    /// A state with no login in progress.
    pub fn new() -> (r: AuthState)
        ensures
            r.pending is None,
            !r.processing,
            r.provider is None,
    {
        AuthState { pending: None, processing: false, provider: None }
    }

    /// Drops the pending login, in memory and in the store.
    pub fn clear_pending(&mut self, store: &mut SessionStore)
        ensures
            no_pending(*final(self), *final(store)),
            final(self).processing == old(self).processing,
            final(self).provider == old(self).provider,
            same_tokens(*old(store), *final(store)),
            final(store).provider == old(store).provider,
    {
        self.pending = None;
        store.pending = None;
    }

    /// Takes the pending login, the in-memory one first, and removes the stored copy.
    pub fn consume_pending(&mut self, store: &mut SessionStore) -> (r: Result<PendingAuth, AuthError>)
        ensures
            no_pending(*final(self), *final(store)),
            current_pending(*old(self), *old(store)) is None ==> r == Err::<PendingAuth, AuthError>(
                AuthError::NoPendingState,
            ),
            current_pending(*old(self), *old(store)) matches Some(p) ==> r == Ok::<
                PendingAuth,
                AuthError,
            >(p),
            final(self).processing == old(self).processing,
            final(self).provider == old(self).provider,
            same_tokens(*old(store), *final(store)),
            final(store).provider == old(store).provider,
    {
        let in_memory = self.pending.take();
        let pending = match in_memory {
            Some(p) => p,
            None => match store.pending.take() {
                Some(p) => p,
                None => {
                    return Err(AuthError::NoPendingState);
                },
            },
        };
        store.pending = None;
        Ok(pending)
    }


    /// Ends the processing of an accepted callback with the outcome of its
    /// code exchange. On success the tokens and the provider are stored.
    /// The processing flag is released whatever the outcome.
    pub fn complete_callback(
        &mut self,
        store: &mut SessionStore,
        exchange: CodeExchange,
        outcome: Result<TokenSet, AuthError>,
    ) -> (r: Result<AuthStatus, AuthError>)
        ensures
            completion_step(*old(self), *old(store), *final(self), *final(store)),
            outcome matches Err(e) ==> r == Err::<AuthStatus, AuthError>(e) && *final(store)
                == *old(store),
            outcome matches Ok(t) ==> {
                &&& r == Ok::<AuthStatus, AuthError>(signed_in(t))
                &&& stored_tokens(*final(store)) == Some(t)
                &&& final(store).provider == Some(exchange.provider)
            },
    {
        self.processing = false;
        match outcome {
            Err(e) => Err(e),
            Ok(t) => {
                let status = AuthStatus { is_authenticated: true, expires_at: Some(t.expires_at) };
                store.save_tokens(t);
                store.provider = Some(exchange.provider);
                Ok(status)
            },
        }
    }

    /// Records a new login attempt with the given random values: it replaces
    /// any earlier pending login, in memory and in the store, and becomes the
    /// provider for later refreshes.
    pub fn prepare_login_with(
        &mut self,
        store: &mut SessionStore,
        provider: ProviderConfig,
        state_value: String,
        code_verifier: String,
        now: i64,
    ) -> (r: Result<PrepareLoginResponse, AuthError>)
        ensures
            final(self).processing == old(self).processing,
            pending_is(final(self).pending, state_value, code_verifier, provider, now),
            pending_is(final(store).pending, state_value, code_verifier, provider, now),
            final(self).provider matches Some(c) && c@ == provider@,
            final(store).provider matches Some(c) && c@ == provider@,
            same_tokens(*old(store), *final(store)),
            r is Ok <==> url_parses(provider.authorization_endpoint@),
            r matches Err(e) ==> e == AuthError::InvalidRedirectUrl,
            r matches Ok(resp) ==> {
                &&& resp.state == state_value
                &&& resp.code_verifier == code_verifier
                &&& resp.code_challenge@ == challenge_of(code_verifier@)
                &&& resp.code_challenge@.len() == 43
                &&& resp.authorization_url@ == url_with_query(
                    provider.authorization_endpoint@,
                    authorization_pairs(provider@, state_value@, challenge_of(code_verifier@)),
                )
            },
    {
        let code_challenge = pkce_challenge(code_verifier.as_str());
        self.pending = Some(
            PendingAuth {
                state: state_value.clone(),
                code_verifier: code_verifier.clone(),
                provider: provider.duplicate(),
                created_at: now,
            },
        );
        self.provider = Some(provider.duplicate());
        store.provider = Some(provider.duplicate());
        store.pending = Some(
            PendingAuth {
                state: state_value.clone(),
                code_verifier: code_verifier.clone(),
                provider: provider.duplicate(),
                created_at: now,
            },
        );
        let authorization_url = match build_authorization_url(
            &provider,
            state_value.as_str(),
            code_challenge.as_str(),
        ) {
            Ok(u) => u,
            Err(e) => {
                return Err(e);
            },
        };
        Ok(PrepareLoginResponse { state: state_value, code_verifier, code_challenge, authorization_url })
    }
}

/// Starts processing a callback whose query carried `params`: checks it
/// against the pending login and consumes that login.
///
/// On success the processing flag stays set until `complete_callback`.
pub fn handle_callback_url(
    state: &mut AuthState,
    store: &mut SessionStore,
    params: &CallbackParams,
    now: i64,
) -> (r: Result<CodeExchange, AuthError>)
    ensures
        callback_step(
            *old(state),
            *old(store),
            *params,
            now,
            *final(state),
            *final(store),
            failure_of(r),
        ),
        r matches Err(AuthError::AuthorizationDenied(d)) ==> d@ == denial_text(
            params.error->0@,
            string_option_view(params.error_description),
        ),
        r matches Ok(x) ==> {
            let p = current_pending(*old(state), *old(store))->0;
            &&& x.code == params.code->0
            &&& x.code_verifier == p.code_verifier
            &&& x.provider == p.provider
        },
{
    if state.processing {
        return Err(AuthError::AlreadyProcessing);
    }
    state.processing = true;
    let (code, returned_state) = match classify_callback(params) {
        Ok(v) => v,
        Err(e) => {
            state.clear_pending(store);
            state.processing = false;
            return Err(e);
        },
    };
    let pending = match state.consume_pending(store) {
        Ok(p) => p,
        Err(e) => {
            state.processing = false;
            return Err(e);
        },
    };
    if (now as i128) - (pending.created_at as i128) > (PENDING_TTL_SECS as i128) {
        state.processing = false;
        return Err(AuthError::PendingExpired);
    }
    if pending.state != returned_state {
        state.clear_pending(store);
        state.processing = false;
        return Err(AuthError::StateMismatch);
    }
    Ok(CodeExchange { code, code_verifier: pending.code_verifier, provider: pending.provider })
}

/// Processes the redirect URL `url`: a URL that does not parse is refused
/// before anything else happens, any other goes through `handle_callback_url`.
pub fn oauth_handle_callback(state: &mut AuthState, store: &mut SessionStore, url: &str, now: i64) -> (r:
    Result<CodeExchange, AuthError>)
    ensures
        !url_parses(url@) ==> r == Err::<CodeExchange, AuthError>(
            AuthError::InvalidRedirectUrl,
        ) && *final(state) == *old(state) && *final(store) == *old(store),
        url_parses(url@) ==> exists|p: CallbackParams|
            #[trigger] params_of_url(p, url@) && callback_step(
                *old(state),
                *old(store),
                p,
                now,
                *final(state),
                *final(store),
                failure_of(r),
            ),
        r matches Err(AuthError::AuthorizationDenied(d)) ==> d@ == denial_text(
            first_value(query_pairs_of(url@), "error"@)->0,
            first_value(query_pairs_of(url@), "error_description"@),
        ),
        r matches Ok(x) ==> {
            let p = current_pending(*old(state), *old(store))->0;
            &&& first_value(query_pairs_of(url@), "code"@) == Some(x.code@)
            &&& x.code_verifier == p.code_verifier
            &&& x.provider == p.provider
        },
{
    let params = match callback_params(url) {
        Ok(p) => p,
        Err(e) => {
            return Err(e);
        },
    };
    let r = handle_callback_url(state, store, &params, now);
    assert(params_of_url(params, url@));
    r
}

/// Prepares a login with a fresh random state and code verifier; see
/// `AuthState::prepare_login_with`.
pub fn oauth_prepare_login(state: &mut AuthState, store: &mut SessionStore, provider: ProviderConfig, now: i64) -> (r:
    Result<PrepareLoginResponse, AuthError>)
    ensures
        final(state).processing == old(state).processing,
        final(state).pending matches Some(p) && pending_is(
            final(store).pending,
            p.state,
            p.code_verifier,
            provider,
            now,
        ) && pending_is(final(state).pending, p.state, p.code_verifier, provider, now),
        final(state).provider matches Some(c) && c@ == provider@,
        final(store).provider matches Some(c) && c@ == provider@,
        same_tokens(*old(store), *final(store)),
        r is Ok <==> url_parses(provider.authorization_endpoint@),
        r matches Err(e) ==> e == AuthError::InvalidRedirectUrl,
        r matches Ok(resp) ==> {
            &&& final(state).pending->0.state == resp.state
            &&& final(state).pending->0.code_verifier == resp.code_verifier
            &&& encodes_bytes(resp.state@, 32) && all_urlsafe(resp.state@)
            &&& encodes_bytes(resp.code_verifier@, 64) && all_urlsafe(resp.code_verifier@)
            &&& resp.code_challenge@ == challenge_of(resp.code_verifier@)
            &&& resp.code_challenge@ != resp.code_verifier@
            &&& resp.authorization_url@ == url_with_query(
                provider.authorization_endpoint@,
                authorization_pairs(provider@, resp.state@, resp.code_challenge@),
            )
        },
{
    let state_value = generate_state();
    let code_verifier = generate_verifier();
    state.prepare_login_with(store, provider, state_value, code_verifier, now)
}

/// Decides whether the stored tokens need a refresh at `now`.
///
/// The provider comes from memory, else from the store (and is then
/// cached). Without tokens the session is reported signed out; tokens
/// with more than the refresh window left are reported as they are;
/// otherwise their refresh token is needed for a refresh.
pub fn oauth_refresh_if_needed(state: &mut AuthState, store: &SessionStore, now: i64) -> (r: Result<
    RefreshStep,
    AuthError,
>)
    ensures
        final(state).pending == old(state).pending,
        final(state).processing == old(state).processing,
        cached_provider(*old(state), *store) is None ==> r == Err::<RefreshStep, AuthError>(
            AuthError::ProviderConfigMissing,
        ) && final(state).provider is None,
        cached_provider(*old(state), *store) matches Some(c) ==> final(state).provider matches Some(
            f,
        ) && f@ == c@,
        cached_provider(*old(state), *store) is Some && stored_tokens(*store) is None ==> r
            == Ok::<RefreshStep, AuthError>(RefreshStep::Current(signed_out())),
        cached_provider(*old(state), *store) is Some && stored_tokens(*store) is Some && fresh(
            stored_tokens(*store)->0.expires_at,
            now,
        ) ==> r == Ok::<RefreshStep, AuthError>(
            RefreshStep::Current(signed_in(stored_tokens(*store)->0)),
        ),
        cached_provider(*old(state), *store) is Some && stored_tokens(*store) is Some && !fresh(
            stored_tokens(*store)->0.expires_at,
            now,
        ) && stored_tokens(*store)->0.refresh_token is None ==> r == Err::<
            RefreshStep,
            AuthError,
        >(AuthError::RefreshTokenMissing),
        cached_provider(*old(state), *store) is Some && stored_tokens(*store) is Some && !fresh(
            stored_tokens(*store)->0.expires_at,
            now,
        ) && stored_tokens(*store)->0.refresh_token is Some ==> refresh_requested(
            r,
            stored_tokens(*store)->0.refresh_token->0,
            cached_provider(*old(state), *store)->0,
        ),
{
    let provider = match &state.provider {
        Some(c) => c.duplicate(),
        None => match &store.provider {
            Some(c) => {
                state.provider = Some(c.duplicate());
                c.duplicate()
            },
            None => {
                return Err(AuthError::ProviderConfigMissing);
            },
        },
    };
    let tokens = match store.load_tokens() {
        Some(t) => t,
        None => {
            return Ok(RefreshStep::Current(AuthStatus { is_authenticated: false, expires_at: None }));
        },
    };
    if (tokens.expires_at as i128) - (now as i128) > (REFRESH_WINDOW_SECS as i128) {
        return Ok(
            RefreshStep::Current(
                AuthStatus { is_authenticated: true, expires_at: Some(tokens.expires_at) },
            ),
        );
    }
    match tokens.refresh_token {
        None => Err(AuthError::RefreshTokenMissing),
        Some(refresh_token) => Ok(RefreshStep::Refresh(RefreshRequest { provider, refresh_token })),
    }
}

} // verus!
