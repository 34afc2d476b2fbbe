use crate::error::AuthError;
use crate::provider::ProviderConfig;
use crate::token::TokenSet;
use vstd::prelude::*;

verus! {

/// A login that was prepared and awaits the provider's redirect.
#[derive(Debug)]
pub struct PendingAuth {
    pub state: String,
    pub code_verifier: String,
    pub provider: ProviderConfig,
    /// When it was prepared, in seconds since the Unix epoch.
    pub created_at: i64,
}

/// Whether a session holds valid tokens, and until when.
#[derive(Debug, Clone, Copy, PartialEq, Eq)]
pub struct AuthStatus {
    pub is_authenticated: bool,
    pub expires_at: Option<i64>,
}

/// The durable records of a session.
///
/// Tokens live in the credential vault when it is available and in the
/// application store otherwise; the pending login and the provider
/// configuration live in the application store.
#[derive(Debug)]
pub struct SessionStore {
    pub vault_available: bool,
    pub vault_tokens: Option<TokenSet>,
    pub app_tokens: Option<TokenSet>,
    pub pending: Option<PendingAuth>,
    pub provider: Option<ProviderConfig>,
}

/// The tokens a load finds: the vault's first, else the application store's.
pub open spec fn stored_tokens(s: SessionStore) -> Option<TokenSet> {
    if s.vault_available && s.vault_tokens is Some {
        s.vault_tokens
    } else {
        s.app_tokens
    }
}

/// The status that a token set gives at time `now`.
pub open spec fn status_of(tokens: Option<TokenSet>, now: i64) -> AuthStatus {
    match tokens {
        Some(t) => AuthStatus { is_authenticated: t.expires_at > now, expires_at: Some(t.expires_at) },
        None => AuthStatus { is_authenticated: false, expires_at: None },
    }
}

pub open spec fn signed_out() -> AuthStatus {
    AuthStatus { is_authenticated: false, expires_at: None }
}

pub open spec fn signed_in(t: TokenSet) -> AuthStatus {
    AuthStatus { is_authenticated: true, expires_at: Some(t.expires_at) }
}

/// Whether nothing but the tokens changed from `s0` to `s1`.
pub open spec fn same_records(s0: SessionStore, s1: SessionStore) -> bool {
    &&& s1.vault_available == s0.vault_available
    &&& s1.pending == s0.pending
    &&& s1.provider == s0.provider
}

pub open spec fn same_tokens(s0: SessionStore, s1: SessionStore) -> bool {
    &&& s1.vault_available == s0.vault_available
    &&& s1.vault_tokens == s0.vault_tokens
    &&& s1.app_tokens == s0.app_tokens
}

impl SessionStore {
    /// A store with no records.
    pub fn new(vault_available: bool) -> (r: SessionStore)
        ensures
            r.vault_available == vault_available,
            r.vault_tokens is None,
            r.app_tokens is None,
            r.pending is None,
            r.provider is None,
    {
        SessionStore {
            vault_available,
            vault_tokens: None,
            app_tokens: None,
            pending: None,
            provider: None,
        }
    }

    /// The current tokens, from the vault if it holds them, else from the
    /// application store.
    pub fn load_tokens(&self) -> (r: Option<TokenSet>)
        ensures
            r == stored_tokens(*self),
    {
        if self.vault_available {
            if let Some(t) = &self.vault_tokens {
                return Some(t.duplicate());
            }
        }
        match &self.app_tokens {
            Some(t) => Some(t.duplicate()),
            None => None,
        }
    }

    /// Stores `tokens` in the vault, or in the application store when the
    /// vault is unavailable.
    pub fn save_tokens(&mut self, tokens: TokenSet)
        ensures
            stored_tokens(*final(self)) == Some(tokens),
            same_records(*old(self), *final(self)),
            old(self).vault_available ==> final(self).app_tokens == old(self).app_tokens,
            !old(self).vault_available ==> final(self).vault_tokens == old(self).vault_tokens,
    {
        if self.vault_available {
            self.vault_tokens = Some(tokens);
        } else {
            self.app_tokens = Some(tokens);
        }
    }

    /// Removes every record of the session: tokens from both backends, the
    /// pending login and the provider configuration.
    pub fn clear_all(&mut self)
        ensures
            final(self).vault_available == old(self).vault_available,
            final(self).vault_tokens is None,
            final(self).app_tokens is None,
            final(self).pending is None,
            final(self).provider is None,
    {
        self.vault_tokens = None;
        self.app_tokens = None;
        self.pending = None;
        self.provider = None;
    }
}

impl SessionStore {
    /// Stores the outcome of a refresh; a failed refresh changes nothing.
    pub fn record_refresh(&mut self, outcome: Result<TokenSet, AuthError>) -> (r: Result<
        AuthStatus,
        AuthError,
    >)
        ensures
            outcome matches Err(e) ==> r == Err::<AuthStatus, AuthError>(e) && *final(self)
                == *old(self),
            outcome matches Ok(t) ==> r == Ok::<AuthStatus, AuthError>(signed_in(t)) && recorded(
                *old(self),
                t,
                *final(self),
            ),
    {
        match outcome {
            Err(e) => Err(e),
            Ok(t) => {
                let status = AuthStatus { is_authenticated: true, expires_at: Some(t.expires_at) };
                self.save_tokens(t);
                Ok(status)
            },
        }
    }
}

/// Signs out: removes every durable record of the session and returns the
/// status to announce.
pub fn oauth_logout(store: &mut SessionStore) -> (r: AuthStatus)
    ensures
        cleared(*old(store), *final(store)),
        r == signed_out(),
{
    store.clear_all();
    AuthStatus { is_authenticated: false, expires_at: None }
}

/// The status of the stored tokens at `now`: signed in while they have not
/// expired, with no grace window.
pub fn oauth_get_auth_state(store: &SessionStore, now: i64) -> (r: AuthStatus)
    ensures
        r == status_of(stored_tokens(*store), now),
{
    match store.load_tokens() {
        Some(t) => AuthStatus { is_authenticated: t.expires_at > now, expires_at: Some(t.expires_at) },
        None => AuthStatus { is_authenticated: false, expires_at: None },
    }
}

/// Whether `s1` is `s0` with `t` stored as the current tokens.
pub open spec fn recorded(s0: SessionStore, t: TokenSet, s1: SessionStore) -> bool {
    stored_tokens(s1) == Some(t) && same_records(s0, s1)
}

/// Whether `s1` is `s0` with every record of the session removed.
pub open spec fn cleared(s0: SessionStore, s1: SessionStore) -> bool {
    &&& s1.vault_available == s0.vault_available
    &&& s1.vault_tokens is None
    &&& s1.app_tokens is None
    &&& s1.pending is None
    &&& s1.provider is None
}

} // verus!
