use vstd::prelude::*;

verus! {

/// Why an authentication step failed.
#[derive(Debug, Clone, PartialEq, Eq)]
pub enum AuthError {
    InvalidRedirectUrl,
    /// Another callback is being processed.
    AlreadyProcessing,
    MissingCode,
    MissingState,
    StateMismatch,
    PendingExpired,
    NoPendingState,
    /// The provider refused the login; carries `error[: description]`.
    AuthorizationDenied(String),
    /// The token endpoint answered with a non-success HTTP status.
    TokenExchangeFailed(u16),
    RefreshTokenMissing,
    ProviderConfigMissing,
    Storage(String),
    Request(String),
    Serialization(String),
}

/// The variant of an [`AuthError`], without its payload.
#[derive(Debug, Clone, Copy, PartialEq, Eq)]
pub enum ErrorKind {
    InvalidRedirectUrl,
    AlreadyProcessing,
    MissingCode,
    MissingState,
    StateMismatch,
    PendingExpired,
    NoPendingState,
    AuthorizationDenied,
    TokenExchangeFailed,
    RefreshTokenMissing,
    ProviderConfigMissing,
    Storage,
    Request,
    Serialization,
}

pub open spec fn kind_of(e: AuthError) -> ErrorKind {
    match e {
        AuthError::InvalidRedirectUrl => ErrorKind::InvalidRedirectUrl,
        AuthError::AlreadyProcessing => ErrorKind::AlreadyProcessing,
        AuthError::MissingCode => ErrorKind::MissingCode,
        AuthError::MissingState => ErrorKind::MissingState,
        AuthError::StateMismatch => ErrorKind::StateMismatch,
        AuthError::PendingExpired => ErrorKind::PendingExpired,
        AuthError::NoPendingState => ErrorKind::NoPendingState,
        AuthError::AuthorizationDenied(_) => ErrorKind::AuthorizationDenied,
        AuthError::TokenExchangeFailed(_) => ErrorKind::TokenExchangeFailed,
        AuthError::RefreshTokenMissing => ErrorKind::RefreshTokenMissing,
        AuthError::ProviderConfigMissing => ErrorKind::ProviderConfigMissing,
        AuthError::Storage(_) => ErrorKind::Storage,
        AuthError::Request(_) => ErrorKind::Request,
        AuthError::Serialization(_) => ErrorKind::Serialization,
    }
}

/// The error kind of a failed result; none for success.
pub open spec fn failure_of<T>(r: Result<T, AuthError>) -> Option<ErrorKind> {
    match r {
        Ok(_) => None,
        Err(e) => Some(kind_of(e)),
    }
}

impl AuthError {
    /// Which variant this is.
    pub fn kind(&self) -> (k: ErrorKind)
        ensures
            k == kind_of(*self),
    {
        match self {
            AuthError::InvalidRedirectUrl => ErrorKind::InvalidRedirectUrl,
            AuthError::AlreadyProcessing => ErrorKind::AlreadyProcessing,
            AuthError::MissingCode => ErrorKind::MissingCode,
            AuthError::MissingState => ErrorKind::MissingState,
            AuthError::StateMismatch => ErrorKind::StateMismatch,
            AuthError::PendingExpired => ErrorKind::PendingExpired,
            AuthError::NoPendingState => ErrorKind::NoPendingState,
            AuthError::AuthorizationDenied(_) => ErrorKind::AuthorizationDenied,
            AuthError::TokenExchangeFailed(_) => ErrorKind::TokenExchangeFailed,
            AuthError::RefreshTokenMissing => ErrorKind::RefreshTokenMissing,
            AuthError::ProviderConfigMissing => ErrorKind::ProviderConfigMissing,
            AuthError::Storage(_) => ErrorKind::Storage,
            AuthError::Request(_) => ErrorKind::Request,
            AuthError::Serialization(_) => ErrorKind::Serialization,
        }
    }
}

} // verus!
