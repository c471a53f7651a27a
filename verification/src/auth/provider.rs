//! Authentication domain types and the provider contract.
use vstd::prelude::*;

use crate::text::{concat3, owned};

verus! {

/// How an OAuth login is carried out.
#[derive(Debug, Clone, Copy, PartialEq, Eq, Structural)]
pub enum AuthLoginMethod {
    Browser,
    Headless,
}

impl AuthLoginMethod {
    pub open spec fn spec_label(self) -> Seq<char> {
        match self {
            AuthLoginMethod::Browser => "browser"@,
            AuthLoginMethod::Headless => "headless"@,
        }
    }

    pub fn label(&self) -> (r: &'static str)
        ensures
            r@ == self.spec_label(),
    {
        match self {
            AuthLoginMethod::Browser => "browser",
            AuthLoginMethod::Headless => "headless",
        }
    }
}

/// Authentication status shown to the user.
#[derive(Debug, Clone, Copy, PartialEq, Eq, Structural)]
pub enum AuthStatus {
    SignedOut,
    SignedIn,
    Expired,
    Refreshing,
}

impl AuthStatus {
    pub open spec fn spec_label(self) -> Seq<char> {
        match self {
            AuthStatus::SignedOut => "signed-out"@,
            AuthStatus::SignedIn => "signed-in"@,
            AuthStatus::Expired => "expired"@,
            AuthStatus::Refreshing => "refreshing"@,
        }
    }

    pub fn label(&self) -> (r: &'static str)
        ensures
            r@ == self.spec_label(),
    {
        match self {
            AuthStatus::SignedOut => "signed-out",
            AuthStatus::SignedIn => "signed-in",
            AuthStatus::Expired => "expired",
            AuthStatus::Refreshing => "refreshing",
        }
    }
}

/// An OAuth session.
#[derive(Debug, Clone, Default, PartialEq, Eq)]
pub struct AuthSession {
    pub provider_id: String,
    pub access_token: String,
    pub refresh_token: Option<String>,
    pub expires_at_unix_secs: Option<u64>,
    pub id_token: Option<String>,
    pub account_id: Option<String>,
}

/// A session without an expiry never expires; one with an expiry is expired
/// from that second on.
pub open spec fn expired_at(expires_at: Option<u64>, now: u64) -> bool {
    match expires_at {
        Some(e) => now >= e,
        None => false,
    }
}

impl AuthSession {
    pub fn is_expired(&self, now_unix_secs: u64) -> (r: bool)
        ensures
            r == expired_at(self.expires_at_unix_secs, now_unix_secs),
    {
        match self.expires_at_unix_secs {
            Some(expires_at) => now_unix_secs >= expires_at,
            None => false,
        }
    }

    pub open spec fn spec_status_at(&self, now: u64) -> AuthStatus {
        if expired_at(self.expires_at_unix_secs, now) {
            AuthStatus::Expired
        } else {
            AuthStatus::SignedIn
        }
    }

    pub fn status_at(&self, now_unix_secs: u64) -> (r: AuthStatus)
        ensures
            r == self.spec_status_at(now_unix_secs),
    {
        if self.is_expired(now_unix_secs) {
            AuthStatus::Expired
        } else {
            AuthStatus::SignedIn
        }
    }
}

/// Errors of the authentication domain.
#[derive(Debug, Clone, PartialEq, Eq)]
pub enum AuthDomainError {
    MissingRefreshToken { provider_id: String },
    InvalidSession { provider_id: String },
}

impl AuthDomainError {
    /// The user-facing description of the error.
    pub fn message(&self) -> (r: String)
        ensures
            r@ == match self {
                AuthDomainError::MissingRefreshToken { provider_id } => "oauth session for provider `"@
                    + provider_id@ + "` is expired and has no refresh token"@,
                AuthDomainError::InvalidSession { provider_id } => "oauth session for provider `"@
                    + provider_id@ + "` is invalid"@,
            },
    {
        match self {
            AuthDomainError::MissingRefreshToken { provider_id } => concat3(
                "oauth session for provider `",
                provider_id.as_str(),
                "` is expired and has no refresh token",
            ),
            AuthDomainError::InvalidSession { provider_id } => concat3(
                "oauth session for provider `",
                provider_id.as_str(),
                "` is invalid",
            ),
        }
    }
}

/// A failed authentication step, described for the user.
#[derive(Debug, Clone, PartialEq, Eq)]
pub struct AuthError {
    pub message: String,
}

impl AuthError {
    pub fn new(message: &str) -> (r: Self)
        ensures
            r.message@ == message@,
    {
        AuthError { message: owned(message) }
    }
}

/// An OAuth identity provider: logs users in and refreshes their sessions.
pub trait AuthProvider {
    /// The identifier that `id` returns.
    spec fn spec_id(&self) -> Seq<char>;

    fn id(&self) -> (r: &'static str)
        ensures
            r@ == self.spec_id(),
    ;

    /// Whether nothing outside this provider can refuse a login: then every
    /// `login` succeeds.
    spec fn logins_succeed(&self) -> bool;

    /// What this provider's login yields: `logs_in(method, session)` holds of
    /// a session that `login(method)` returns.
    spec fn logs_in(&self, method: AuthLoginMethod, session: AuthSession) -> bool;

    fn login(&self, method: AuthLoginMethod) -> (r: Result<AuthSession, AuthError>)
        ensures
            self.logins_succeed() ==> r is Ok,
            r matches Ok(s) ==> self.logs_in(method, s),
    ;

    /// What this provider's refresh does: `refreshes(before, after, ok)`
    /// relates the session before a call of `refresh_if_needed`, the session
    /// after it, and whether the call succeeded.
    spec fn refreshes(&self, before: AuthSession, after: AuthSession, ok: bool) -> bool;

    /// Refreshes `session` when it is expired; a valid session is left alone.
    fn refresh_if_needed(&self, session: &mut AuthSession) -> (r: Result<(), AuthError>)
        ensures
            self.refreshes(*old(session), *final(session), r is Ok),
    ;
}

} // verus!
