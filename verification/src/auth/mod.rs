//! Authentication: providers, token persistence and the runtime that
//! resolves credentials.
pub mod oauth_chatgpt;
pub mod provider;
pub mod token_store;

use vstd::prelude::*;

use crate::clock::unix_timestamp_secs;
use crate::text::{concat2, concat3, has_prefix, owned, trim, trim_str, u64_decimal};

use self::provider::{
    expired_at, AuthError, AuthLoginMethod, AuthProvider, AuthSession, AuthStatus,
    AuthDomainError,
};
use self::token_store::{
    copy_opt, ActiveTokenStoreBackend, InMemoryTokenStore, StoredToken, TokenStore,
};

verus! {

/// Where the active credential comes from.
#[derive(Debug, Clone, Copy, PartialEq, Eq, Structural)]
pub enum CredentialSource {
    OAuthSession,
    ApiKey,
    SignedOut,
}

impl CredentialSource {
    pub open spec fn spec_label(self) -> Seq<char> {
        match self {
            CredentialSource::OAuthSession => "oauth-session"@,
            CredentialSource::ApiKey => "api-key"@,
            CredentialSource::SignedOut => "signed-out"@,
        }
    }

    pub fn label(&self) -> (r: &'static str)
        ensures
            r@ == self.spec_label(),
    {
        match self {
            CredentialSource::OAuthSession => "oauth-session",
            CredentialSource::ApiKey => "api-key",
            CredentialSource::SignedOut => "signed-out",
        }
    }
}

/// A summary of the runtime's authentication state.
#[derive(Debug, Clone, PartialEq, Eq)]
pub struct AuthSnapshot {
    pub status: AuthStatus,
    pub source: CredentialSource,
    pub provider_id: String,
    pub token_store_backend: ActiveTokenStoreBackend,
    pub token_store_warning: Option<String>,
}

/// The text of an auth report.
pub open spec fn spec_report(
    status: AuthStatus,
    source: CredentialSource,
    provider_id: Seq<char>,
    backend: ActiveTokenStoreBackend,
    warning: Option<Seq<char>>,
) -> Seq<char> {
    let base = "Auth report | status: "@ + status.spec_label() + " | source: "@ + source.spec_label()
        + " | provider: "@ + provider_id + " | token-store: "@ + backend.spec_label();
    match warning {
        Some(w) => base + " | warning: "@ + w,
        None => base,
    }
}

pub open spec fn opt_view(s: Option<String>) -> Option<Seq<char>> {
    match s {
        Some(v) => Some(v@),
        None => None,
    }
}

impl AuthSnapshot {
    /// The one-line report shown by `/auth`.
    pub fn report(&self) -> (r: String)
        ensures
            r@ == spec_report(
                self.status,
                self.source,
                self.provider_id@,
                self.token_store_backend,
                opt_view(self.token_store_warning),
            ),
    {
        let mut r = concat2("Auth report | status: ", self.status.label());
        r.append(" | source: ");
        r.append(self.source.label());
        r.append(" | provider: ");
        r.append(self.provider_id.as_str());
        r.append(" | token-store: ");
        r.append(self.token_store_backend.label());
        match &self.token_store_warning {
            Some(w) => {
                r.append(" | warning: ");
                r.append(w.as_str());
            },
            None => {},
        }
        r
    }
}

/// The credential that requests are made with.
#[derive(Debug, Clone, PartialEq, Eq)]
pub enum ResolvedCredential {
    OAuth(AuthSession),
    ApiKey(String),
    SignedOut,
}

/// Status of a credential at time `now`.
pub open spec fn credential_status(c: ResolvedCredential, now: u64) -> AuthStatus {
    match c {
        ResolvedCredential::OAuth(s) => s.spec_status_at(now),
        ResolvedCredential::ApiKey(_) => AuthStatus::SignedIn,
        ResolvedCredential::SignedOut => AuthStatus::SignedOut,
    }
}

/// Source of a credential.
pub open spec fn credential_source(c: ResolvedCredential) -> CredentialSource {
    match c {
        ResolvedCredential::OAuth(_) => CredentialSource::OAuthSession,
        ResolvedCredential::ApiKey(_) => CredentialSource::ApiKey,
        ResolvedCredential::SignedOut => CredentialSource::SignedOut,
    }
}

/// Startup credential: a usable stored OAuth session wins; otherwise the API
/// key, when there is one; otherwise signed out.
pub open spec fn spec_startup_credential(
    session: Option<AuthSession>,
    api_key: Option<String>,
) -> ResolvedCredential {
    match session {
        Some(s) => ResolvedCredential::OAuth(s),
        None => match api_key {
            Some(k) => ResolvedCredential::ApiKey(k),
            None => ResolvedCredential::SignedOut,
        },
    }
}

/// Credential after logout: the API key when it is not blank, otherwise
/// signed out.
pub open spec fn spec_logout_credential(api_key: Option<String>) -> ResolvedCredential {
    match api_key {
        Some(k) => if trim(k@).len() == 0 {
            ResolvedCredential::SignedOut
        } else {
            ResolvedCredential::ApiKey(k)
        },
        None => ResolvedCredential::SignedOut,
    }
}

/// Startup prefers the stored OAuth session over the API key, falls back to
/// the API key only without a session, and is signed out without either.
pub proof fn law_startup_prefers_oauth(session: AuthSession, api_key: Option<String>, key: String)
    ensures
        spec_startup_credential(Some(session), api_key) == ResolvedCredential::OAuth(session),
        spec_startup_credential(None, Some(key)) == ResolvedCredential::ApiKey(key),
        spec_startup_credential(None, None) == ResolvedCredential::SignedOut,
        credential_source(spec_startup_credential(Some(session), api_key))
            == CredentialSource::OAuthSession,
{
}

/// `Some(value)` unless `value` is blank.
pub fn non_empty_token_string(value: String) -> (r: Option<String>)
    ensures
        r == if trim(value@).len() == 0 {
            None
        } else {
            Some(value)
        },
{
    let t = trim_str(value.as_str());
    if t.as_str().is_empty() {
        None
    } else {
        Some(value)
    }
}

/// Decides the startup credential from the (refreshed) stored session and
/// the API key.
pub fn startup_credential(session: Option<AuthSession>, api_key: Option<String>) -> (r:
    ResolvedCredential)
    ensures
        r == spec_startup_credential(session, api_key),
{
    match session {
        Some(s) => ResolvedCredential::OAuth(s),
        None => match api_key {
            Some(k) => ResolvedCredential::ApiKey(k),
            None => ResolvedCredential::SignedOut,
        },
    }
}

/// Owns the auth provider, the token store and the resolved credential.
pub struct AuthRuntime<P, S> {
    provider: P,
    token_store: S,
    token_store_backend: ActiveTokenStoreBackend,
    token_store_warning: Option<String>,
    token_file_path: String,
    token_file_store: Option<S>,
    credential: ResolvedCredential,
    api_key_env: String,
}

impl<P: AuthProvider, S: TokenStore> AuthRuntime<P, S> {
    pub closed spec fn credential(&self) -> ResolvedCredential {
        self.credential
    }

    pub closed spec fn store(&self) -> S {
        self.token_store
    }

    pub closed spec fn file_store(&self) -> Option<S> {
        self.token_file_store
    }

    pub closed spec fn spec_provider(&self) -> P {
        self.provider
    }

    /// The location of the token file, as the messages name it.
    pub closed spec fn spec_token_file_path(&self) -> Seq<char> {
        self.token_file_path@
    }

    pub closed spec fn backend(&self) -> ActiveTokenStoreBackend {
        self.token_store_backend
    }

    pub closed spec fn warning(&self) -> Option<Seq<char>> {
        opt_view(self.token_store_warning)
    }

    pub closed spec fn api_key_env(&self) -> Seq<char> {
        self.api_key_env@
    }

    /// The provider's identifier.
    pub open spec fn spec_provider_id(&self) -> Seq<char> {
        self.spec_provider().spec_id()
    }

    /// A signed-out runtime assembled from its parts. `token_file_store`,
    /// when present, is read first at startup (a token file preflight) and
    /// `token_file_path` names it in messages.
    pub fn from_parts(
        provider: P,
        token_store: S,
        token_store_backend: ActiveTokenStoreBackend,
        token_store_warning: Option<String>,
        token_file_path: String,
        token_file_store: Option<S>,
        api_key_env: String,
    ) -> (r: Self)
        ensures
            r.credential() == ResolvedCredential::SignedOut,
            r.spec_provider() == provider,
            r.store() == token_store,
            r.file_store() == token_file_store,
            r.backend() == token_store_backend,
            r.warning() == opt_view(token_store_warning),
            r.api_key_env() == api_key_env@,
    {
        AuthRuntime {
            provider,
            token_store,
            token_store_backend,
            token_store_warning,
            token_file_path,
            token_file_store,
            credential: ResolvedCredential::SignedOut,
            api_key_env,
        }
    }

    /// The environment variable that holds the API key.
    pub fn api_key_env_name(&self) -> (r: &str)
        ensures
            r@ == self.api_key_env(),
    {
        self.api_key_env.as_str()
    }

    pub fn provider_id(&self) -> (r: &'static str)
        ensures
            r@ == self.spec_provider_id(),
    {
        self.provider.id()
    }

    pub fn startup_warning(&self) -> (r: Option<&str>)
        ensures
            r matches Some(w) ==> self.warning() == Some(w@),
            r is None ==> self.warning() is None,
    {
        match &self.token_store_warning {
            Some(w) => Some(w.as_str()),
            None => None,
        }
    }

    /// Status at the given time.
    pub fn status_at(&self, now: u64) -> (r: AuthStatus)
        ensures
            r == credential_status(self.credential(), now),
    {
        match &self.credential {
            ResolvedCredential::OAuth(session) => session.status_at(now),
            ResolvedCredential::ApiKey(_) => AuthStatus::SignedIn,
            ResolvedCredential::SignedOut => AuthStatus::SignedOut,
        }
    }

    /// Whether the provider's refresh can refuse the session `before`.
    pub open spec fn refresh_may_fail(&self, before: AuthSession) -> bool {
        exists|after: AuthSession| #[trigger] self.spec_provider().refreshes(before, after, false)
    }

    /// Status now, by the system clock.
    pub fn status(&self) -> (r: AuthStatus)
        ensures
            exists|now: u64| r == credential_status(self.credential(), now),
    {
        self.status_at(unix_timestamp_secs())
    }

    pub fn source(&self) -> (r: CredentialSource)
        ensures
            r == credential_source(self.credential()),
    {
        match &self.credential {
            ResolvedCredential::OAuth(_) => CredentialSource::OAuthSession,
            ResolvedCredential::ApiKey(_) => CredentialSource::ApiKey,
            ResolvedCredential::SignedOut => CredentialSource::SignedOut,
        }
    }

    pub fn snapshot(&self) -> (r: AuthSnapshot)
        ensures
            exists|now: u64| r.status == credential_status(self.credential(), now),
            r.source == credential_source(self.credential()),
            r.provider_id@ == self.spec_provider_id(),
            r.token_store_backend == self.backend(),
            opt_view(r.token_store_warning) == self.warning(),
    {
        AuthSnapshot {
            status: self.status(),
            source: self.source(),
            provider_id: owned(self.provider.id()),
            token_store_backend: self.token_store_backend,
            token_store_warning: copy_opt(&self.token_store_warning),
        }
    }

    /// The report shown by `/auth`.
    pub fn status_report(&self) -> (r: String)
        ensures
            exists|now: u64|
                r@ == spec_report(
                    credential_status(self.credential(), now),
                    credential_source(self.credential()),
                    self.spec_provider_id(),
                    self.backend(),
                    self.warning(),
                ),
    {
        self.snapshot().report()
    }

    fn refresh_session_if_needed(&self, session: &mut AuthSession) -> (r: Result<(), AuthError>)
        ensures
            self.spec_provider().refreshes(*old(session), *final(session), r is Ok),
            r matches Err(e) ==> e.message@ == "failed to refresh OAuth session for `"@
                + self.spec_provider_id() + "`"@,
    {
        match self.provider.refresh_if_needed(session) {
            Ok(()) => Ok(()),
            Err(_) => Err(
                AuthError { message: concat3("failed to refresh OAuth session for `", self.provider.id(), "`") },
            ),
        }
    }

    fn persist_session(&mut self, session: &AuthSession) -> (r: Result<(), AuthError>)
        ensures
            final(self).credential() == old(self).credential(),
            final(self).spec_provider() == old(self).spec_provider(),
            final(self).file_store() == old(self).file_store(),
            final(self).backend() == old(self).backend(),
            final(self).warning() == old(self).warning(),
            final(self).api_key_env() == old(self).api_key_env(),
            r is Ok ==> forall|k: Seq<char>|
                #[trigger] final(self).store().stored(k) == if k == session.provider_id@ {
                    Some(StoredToken::spec_from_session(*session))
                } else {
                    old(self).store().stored(k)
                },
            r matches Err(e) ==> e.message@ == "failed to persist token for provider `"@
                + old(self).spec_provider_id() + "`"@,
            r is Err ==> forall|k: Seq<char>|
                #[trigger] final(self).store().stored(k) == old(self).store().stored(k),
            old(self).store().writes_succeed() ==> r is Ok,
            final(self).store().readable() == old(self).store().readable(),
            final(self).store().writes_succeed() == old(self).store().writes_succeed(),
    {
        let stored = StoredToken::from_session(session);
        match self.token_store.save(&stored) {
            Ok(()) => Ok(()),
            Err(_) => Err(
                AuthError { message: concat3("failed to persist token for provider `", self.provider.id(), "`") },
            ),
        }
    }

    /// What `login(method)` does: on success the credential is a session
    /// that the provider's login for `method` returned, stamped with the
    /// provider id, and the store holds it; on failure the credential is
    /// unchanged and the message says whether the login or the write failed.
    pub open spec fn login_effect(
        self,
        after: Self,
        method: AuthLoginMethod,
        r: Result<AuthStatus, AuthError>,
    ) -> bool {
        &&& r is Ok ==> (after.credential() matches ResolvedCredential::OAuth(s) && {
            &&& s.provider_id@ == self.spec_provider_id()
            &&& after.store().stored(s.provider_id@) == Some(StoredToken::spec_from_session(s))
            &&& exists|now: u64| r->Ok_0 == s.spec_status_at(now)
            &&& exists|s0: AuthSession|
                #[trigger] self.spec_provider().logs_in(method, s0) && s == (AuthSession {
                    provider_id: s.provider_id,
                    ..s0
                })
        })
        &&& r is Err ==> after.credential() == self.credential()
        &&& r matches Err(e) ==> e.message@ == "failed to complete OAuth login"@ || e.message@
            == "failed to persist token for provider `"@ + self.spec_provider_id() + "`"@
        &&& self.spec_provider().logins_succeed() && self.store().writes_succeed() ==> r is Ok
        &&& after.spec_provider() == self.spec_provider()
        &&& after.backend() == self.backend()
        &&& after.warning() == self.warning()
        &&& after.file_store() == self.file_store()
        &&& after.api_key_env() == self.api_key_env()
    }

    /// Logs in with `method` and persists the new session.
    ///
    /// On success the credential is the new OAuth session, stamped with the
    /// provider id, and the store holds it; on failure the credential is
    /// unchanged.
    pub fn login(&mut self, method: AuthLoginMethod) -> (r: Result<AuthStatus, AuthError>)
        ensures
            old(self).login_effect(*final(self), method, r),
    {
        let mut session = match self.provider.login(method) {
            Ok(s) => s,
            Err(_) => {
                return Err(AuthError::new("failed to complete OAuth login"));
            },
        };
        let ghost s0 = session;
        session.provider_id = owned(self.provider.id());
        assert(session == (AuthSession { provider_id: session.provider_id, ..s0 }));
        match self.persist_session(&session) {
            Ok(()) => {},
            Err(e) => {
                return Err(e);
            },
        }
        self.credential = ResolvedCredential::OAuth(session);
        Ok(self.status())
    }

    /// Logs in through the browser (see `login`).
    pub fn login_default(&mut self) -> (r: Result<AuthStatus, AuthError>)
        ensures
            old(self).login_effect(*final(self), AuthLoginMethod::Browser, r),
    {
        self.login(AuthLoginMethod::Browser)
    }

    /// Clears the stored session; the credential falls back to the API key
    /// when it is not blank.
    pub fn logout_with_api_key(&mut self, api_key: Option<String>) -> (r: Result<
        AuthStatus,
        AuthError,
    >)
        ensures
            r is Ok ==> {
                &&& final(self).credential() == spec_logout_credential(api_key)
                &&& final(self).store().stored(old(self).spec_provider_id()) is None
                &&& r->Ok_0 == if final(self).credential() is ApiKey {
                    AuthStatus::SignedIn
                } else {
                    AuthStatus::SignedOut
                }
            },
            r matches Err(e) ==> final(self).credential() == old(self).credential()
                && e.message@ == "failed to clear token for provider `"@
                + old(self).spec_provider_id() + "`"@,
            old(self).store().writes_succeed() ==> r is Ok,
            !old(self).store().readable() ==> r is Err,
            r is Ok ==> forall|k: Seq<char>|
                k != old(self).spec_provider_id() ==> #[trigger] final(self).store().stored(k)
                    == old(self).store().stored(k),
            final(self).spec_provider() == old(self).spec_provider(),
    {
        let provider_id = self.provider.id();
        match self.token_store.clear(provider_id) {
            Ok(()) => {},
            Err(_) => {
                return Err(
                    AuthError { message: concat3("failed to clear token for provider `", provider_id, "`") },
                );
            },
        }
        self.credential = match api_key {
            Some(k) => match non_empty_token_string(k) {
                Some(k) => ResolvedCredential::ApiKey(k),
                None => ResolvedCredential::SignedOut,
            },
            None => ResolvedCredential::SignedOut,
        };
        Ok(self.status())
    }

    /// Returns the token for the next request, refreshing and persisting an
    /// OAuth session first. A failed refresh or persist leaves the runtime
    /// signed out.
    pub fn resolve_access_token_for_request(&mut self) -> (r: Result<Option<String>, AuthError>)
        ensures
            old(self).credential() is SignedOut ==> r == Ok::<Option<String>, AuthError>(None)
                && final(self).credential() is SignedOut,
            old(self).credential() matches ResolvedCredential::ApiKey(k) ==> r == Ok::<
                Option<String>,
                AuthError,
            >(Some(k)) && final(self).credential() == old(self).credential(),
            !(old(self).credential() is OAuth) ==> final(self).store() == old(self).store(),
            old(self).credential() matches ResolvedCredential::OAuth(before) ==> {
                &&& r matches Ok(t) ==> final(self).credential() matches ResolvedCredential::OAuth(
                    s,
                ) && t == Some(s.access_token) && final(self).store().stored(s.provider_id@)
                    == Some(StoredToken::spec_from_session(s)) && old(self).spec_provider().refreshes(
                    before,
                    s,
                    true,
                )
                &&& r is Err ==> final(self).credential() is SignedOut
                &&& r matches Err(e) ==> e.message@ == "failed to refresh OAuth session for `"@
                    + old(self).spec_provider_id() + "`"@ || e.message@
                    == "failed to persist token for provider `"@ + old(self).spec_provider_id() + "`"@
                &&& !old(self).refresh_may_fail(before) && old(self).store().writes_succeed()
                    ==> r is Ok
                &&& r is Err ==> old(self).refresh_may_fail(before) || !old(self).store().writes_succeed()
            },
            final(self).spec_provider() == old(self).spec_provider(),
    {
        let mut current = ResolvedCredential::SignedOut;
        std::mem::swap(&mut current, &mut self.credential);
        match current {
            ResolvedCredential::OAuth(mut session) => {
                let ghost before = session;
                match self.refresh_session_if_needed(&mut session) {
                    Ok(()) => {},
                    Err(e) => {
                        assert(self.spec_provider().refreshes(before, session, false));
                        assert(old(self).spec_provider() == self.spec_provider());
                        assert(old(self).refresh_may_fail(before));
                        return Err(e);
                    },
                }
                match self.persist_session(&session) {
                    Ok(()) => {},
                    Err(e) => {
                        return Err(e);
                    },
                }
                let access_token = session.access_token.clone();
                self.credential = ResolvedCredential::OAuth(session);
                Ok(Some(access_token))
            },
            ResolvedCredential::ApiKey(api_key) => {
                let token = api_key.clone();
                self.credential = ResolvedCredential::ApiKey(api_key);
                Ok(Some(token))
            },
            ResolvedCredential::SignedOut => {
                self.credential = ResolvedCredential::SignedOut;
                Ok(None)
            },
        }
    }

    /// Loads the stored token startup uses: the token file first (when there
    /// is one), then the configured store; load failures count as "nothing
    /// stored".
    fn load_startup_stored_session(&self, provider_id: &str) -> (r: Option<StoredToken>)
        ensures
            r matches Some(t) ==> (self.file_store() matches Some(f) && f.stored(provider_id@)
                == Some(t)) || self.store().stored(provider_id@) == Some(t),
            r == spec_startup_token(self.file_store(), self.backend(), self.store(), provider_id@),
    {
        let file_result = match &self.token_file_store {
            Some(file_store) => Some(file_store.load(provider_id)),
            None => None,
        };
        choose_startup_token(file_result, self.token_store_backend, &self.token_store, provider_id)
    }

    fn clear_startup_file_session(&mut self, provider_id: &str) -> (r: Result<(), AuthError>)
        ensures
            final(self).store() == old(self).store(),
            final(self).credential() == old(self).credential(),
            final(self).spec_provider() == old(self).spec_provider(),
            old(self).file_store() is None ==> r is Ok && final(self).file_store() is None,
            old(self).file_store() matches Some(f) ==> (final(self).file_store() matches Some(g) && {
                &&& r is Ok ==> forall|k: Seq<char>|
                    #[trigger] g.stored(k) == if k == provider_id@ {
                        None
                    } else {
                        f.stored(k)
                    }
                &&& r is Err ==> forall|k: Seq<char>| #[trigger] g.stored(k) == f.stored(k)
                &&& f.writes_succeed() ==> r is Ok
                &&& !f.readable() ==> r is Err
                &&& g.readable() == f.readable()
                &&& g.writes_succeed() == f.writes_succeed()
            }),
            r matches Err(e) ==> e.message@ == "failed to clear stale token for provider `"@
                + provider_id@ + "` from "@ + old(self).spec_token_file_path(),
    {
        match &mut self.token_file_store {
            None => Ok(()),
            Some(file_store) => match file_store.clear(provider_id) {
                Ok(()) => Ok(()),
                Err(_) => {
                    let mut m = concat3(
                        "failed to clear stale token for provider `",
                        provider_id,
                        "` from ",
                    );
                    m.append(self.token_file_path.as_str());
                    Err(AuthError { message: m })
                },
            },
        }
    }

    /// Resolves the startup credential: a stored OAuth session (refreshed and
    /// persisted) when there is one that can be used, otherwise the API key,
    /// otherwise signed out. A stored session that cannot be refreshed is
    /// cleared from the stores.
    pub fn resolve_startup_credentials_with_api_key(&mut self, api_key: Option<String>) -> (r:
        Result<(), AuthError>)
        ensures
            r is Ok ==> exists|s: Option<AuthSession>|
                final(self).credential() == #[trigger] spec_startup_credential(s, api_key),
            r is Ok ==> (final(self).credential() matches ResolvedCredential::OAuth(s)
                ==> final(self).store().stored(s.provider_id@) == Some(
                StoredToken::spec_from_session(s),
            )),
            r is Ok && (old(self).file_store() matches Some(f) ==> f.stored(
                old(self).spec_provider_id(),
            ) is None) && old(self).store().stored(old(self).spec_provider_id()) is None
                ==> final(self).credential() == spec_startup_credential(None, api_key),
            spec_startup_token(
                old(self).file_store(),
                old(self).backend(),
                old(self).store(),
                old(self).spec_provider_id(),
            ) is None ==> r is Ok && final(self).credential() == spec_startup_credential(
                None,
                api_key,
            ),
            old(self).store().writes_succeed() && (old(self).file_store() matches Some(f)
                ==> f.writes_succeed()) ==> r is Ok,
            r matches Err(e) ==> e.message@ == "failed to persist token for provider `"@
                + old(self).spec_provider_id() + "`"@ || e.message@
                == "failed to clear stale token for provider `"@ + old(self).spec_provider_id()
                + "` from "@ + old(self).spec_token_file_path() || e.message@
                == "failed to clear stale token for `"@ + old(self).spec_provider_id() + "`"@,
            ({
                let pid = old(self).spec_provider_id();
                r is Ok ==> (spec_startup_token(old(self).file_store(), old(self).backend(), old(self).store(), pid)
                    matches Some(t) ==> exists|s0: AuthSession, s1: AuthSession, ok: bool|
                    #[trigger] resumes(t, pid, s0) && #[trigger] old(self).spec_provider().refreshes(
                        s0,
                        s1,
                        ok,
                    ) && (ok ==> final(self).credential() == ResolvedCredential::OAuth(s1)
                        && final(self).store().stored(s1.provider_id@) == Some(
                        StoredToken::spec_from_session(s1),
                    )) && (!ok ==> final(self).credential() == spec_startup_credential(None, api_key)
                        && final(self).store().stored(pid) is None && (final(self).file_store() matches Some(g) ==> g.stored(pid) is None)))
            }),
            final(self).spec_provider() == old(self).spec_provider(),
    {
        let provider_id = self.provider.id();
        let stored_session = self.load_startup_stored_session(provider_id);
        match stored_session {
            Some(stored_token) => {
                let ghost t = stored_token;
                let mut session = stored_token.into_session();
                if session.provider_id.as_str().is_empty() {
                    session.provider_id = owned(provider_id);
                }
                let ghost s0 = session;
                assert(resumes(t, provider_id@, s0));
                match self.refresh_session_if_needed(&mut session) {
                    Ok(()) => {
                        match self.persist_session(&session) {
                            Ok(()) => {},
                            Err(e) => {
                                return Err(e);
                            },
                        }
                        let ghost sess = session;
                        self.credential = startup_credential(Some(session), api_key);
                        assert(self.spec_provider().refreshes(s0, sess, true));
                        return Ok(());
                    },
                    Err(_) => {
                        let ghost s1 = session;
                        assert(self.spec_provider().refreshes(s0, s1, false));
                        match self.clear_startup_file_session(provider_id) {
                            Ok(()) => {},
                            Err(e) => {
                                return Err(e);
                            },
                        }
                        match self.token_store.clear(provider_id) {
                            Ok(()) => {},
                            Err(_) => {
                                return Err(
                                    AuthError {
                                        message: concat3(
                                            "failed to clear stale token for `",
                                            provider_id,
                                            "`",
                                        ),
                                    },
                                );
                            },
                        }
                        self.credential = startup_credential(None, api_key);
                        assert(self.spec_provider().refreshes(s0, s1, false));
                        return Ok(());
                    },
                }
            },
            None => {},
        }
        self.credential = startup_credential(None, api_key);
        Ok(())
    }
}

/// The session startup resumes from a stored token: the token's session,
/// stamped with `provider_id` when it names no provider.
pub open spec fn resumes(t: StoredToken, provider_id: Seq<char>, s: AuthSession) -> bool {
    &&& s == (AuthSession { provider_id: s.provider_id, ..t.spec_session() })
    &&& s.provider_id@ == if t.provider_id@.len() == 0 {
        provider_id
    } else {
        t.provider_id@
    }
}

/// The stored token startup resumes: the token file's when the file can be
/// read and holds one for the provider; otherwise nothing when the file could
/// not be read and the keyring is not the active backend; otherwise the
/// configured store's when that store can be read.
pub open spec fn spec_startup_token<S: TokenStore>(
    file_store: Option<S>,
    backend: ActiveTokenStoreBackend,
    store: S,
    provider_id: Seq<char>,
) -> Option<StoredToken> {
    if file_store is Some && file_store->0.readable() && file_store->0.stored(provider_id) is Some {
        file_store->0.stored(provider_id)
    } else if file_store is Some && !file_store->0.readable() && backend
        != ActiveTokenStoreBackend::Keyring {
        None
    } else if store.readable() {
        store.stored(provider_id)
    } else {
        None
    }
}

/// Picks the stored token startup uses from the token-file preflight result
/// and, when needed, the configured store.
pub fn choose_startup_token<S: TokenStore>(
    file_result: Option<Result<Option<StoredToken>, AuthError>>,
    backend: ActiveTokenStoreBackend,
    store: &S,
    provider_id: &str,
) -> (r: Option<StoredToken>)
    ensures
        file_result matches Some(Ok(Some(t))) ==> r == Some(t),
        (file_result matches Some(Err(_))) && backend != ActiveTokenStoreBackend::Keyring ==> r is None,
        r matches Some(t) ==> file_result == Some(Ok::<Option<StoredToken>, AuthError>(Some(t)))
            || store.stored(provider_id@) == Some(t),
        !(file_result matches Some(Ok(Some(_)))) && !((file_result matches Some(Err(_))) && backend
            != ActiveTokenStoreBackend::Keyring) ==> r == (if store.readable() {
            store.stored(provider_id@)
        } else {
            None
        }),
{
    let preflight_failed = match file_result {
        Some(Ok(Some(t))) => {
            return Some(t);
        },
        Some(Ok(None)) => false,
        Some(Err(_)) => true,
        None => false,
    };
    if preflight_failed && backend != ActiveTokenStoreBackend::Keyring {
        return None;
    }
    match store.load(provider_id) {
        Ok(stored) => stored,
        Err(_) => None,
    }
}

/// A deterministic provider for tests: logins succeed with one-hour sessions
/// and refreshes derive the new access token from the refresh token.
#[derive(Debug, Default)]
pub struct MockAuthProvider;

impl AuthProvider for MockAuthProvider {
    open spec fn spec_id(&self) -> Seq<char> {
        "chatgpt-oauth"@
    }

    fn id(&self) -> (r: &'static str) {
        "chatgpt-oauth"
    }

    open spec fn logins_succeed(&self) -> bool {
        true
    }

    /// A one-hour session whose access token names the login method.
    open spec fn logs_in(&self, method: AuthLoginMethod, session: AuthSession) -> bool {
        &&& session.provider_id@ == "chatgpt-oauth"@
        &&& has_prefix(session.access_token@, "test-access-"@ + method.spec_label() + "-"@)
        &&& session.refresh_token is Some
        &&& session.expires_at_unix_secs is Some
    }

    fn login(&self, method: AuthLoginMethod) -> (r: Result<AuthSession, AuthError>)
        ensures
            r matches Ok(s) && s.provider_id@ == "chatgpt-oauth"@ && s.refresh_token is Some
                && s.expires_at_unix_secs is Some,
    {
        let now = unix_timestamp_secs();
        let stamp = u64_decimal(now);
        let mut access = concat3("test-access-", method.label(), "-");
        let ghost lead = access@;
        access.append(stamp.as_str());
        assert(access@.take(lead.len() as int) =~= lead);
        let refresh = concat2("test-refresh-", stamp.as_str());
        Ok(
            AuthSession {
                provider_id: owned(self.id()),
                access_token: access,
                refresh_token: Some(refresh),
                expires_at_unix_secs: Some(now.saturating_add(3600)),
                id_token: None,
                account_id: Some(owned("test-account")),
            },
        )
    }

    /// An expired session with a refresh token gets the access token
    /// `<refresh token>-refreshed` and a new expiry; an expired session
    /// without one fails; any other session is left alone.
    open spec fn refreshes(&self, before: AuthSession, after: AuthSession, ok: bool) -> bool {
        &&& ok ==> after == before || (before.refresh_token matches Some(t)
            && before.expires_at_unix_secs is Some && after.access_token@ == t@ + "-refreshed"@
            && after.expires_at_unix_secs is Some && after == (AuthSession {
            access_token: after.access_token,
            expires_at_unix_secs: after.expires_at_unix_secs,
            ..before
        }))
        &&& !ok ==> after == before && before.refresh_token is None
            && before.expires_at_unix_secs is Some
        &&& before.refresh_token is Some ==> ok
        &&& before.expires_at_unix_secs is None ==> ok && after == before
        &&& ok && after == before ==> exists|now: u64|
            !#[trigger] expired_at(before.expires_at_unix_secs, now)
    }

    fn refresh_if_needed(&self, session: &mut AuthSession) -> (r: Result<(), AuthError>)
        ensures
            final(session).provider_id == old(session).provider_id,
            r matches Err(e) ==> e.message@ == "oauth session for provider `"@
                + old(session).provider_id@ + "` is expired and has no refresh token"@,
    {
        let now = unix_timestamp_secs();
        if !session.is_expired(now) {
            assert(!expired_at(session.expires_at_unix_secs, now));
            return Ok(());
        }
        let refresh = match &session.refresh_token {
            Some(t) => t.clone(),
            None => {
                let e = AuthDomainError::MissingRefreshToken {
                    provider_id: session.provider_id.clone(),
                };
                return Err(AuthError { message: e.message() });
            },
        };
        session.access_token = concat2(refresh.as_str(), "-refreshed");
        session.expires_at_unix_secs = Some(unix_timestamp_secs().saturating_add(3600));
        assert(!expired_at(session.expires_at_unix_secs, 0));
        Ok(())
    }
}

impl AuthRuntime<MockAuthProvider, InMemoryTokenStore> {
    /// A signed-out runtime with the mock provider and an empty in-memory store.
    pub fn for_tests() -> (r: Self)
        ensures
            r.credential() == ResolvedCredential::SignedOut,
            r.file_store() is None,
            r.backend() == ActiveTokenStoreBackend::FileOnly,
            forall|k: Seq<char>| #[trigger] r.store().stored(k) is None,
            r.warning() is None,
    {
        Self::with_store_for_tests(InMemoryTokenStore::new())
    }

    /// A signed-out runtime with the mock provider and the given store.
    pub fn with_store_for_tests(store: InMemoryTokenStore) -> (r: Self)
        ensures
            r.credential() == ResolvedCredential::SignedOut,
            r.file_store() is None,
            r.backend() == ActiveTokenStoreBackend::FileOnly,
            r.store() == store,
            r.warning() is None,
    {
        Self::from_parts(
            MockAuthProvider,
            store,
            ActiveTokenStoreBackend::FileOnly,
            None,
            owned(".maky/__maky_test_unused_auth_tokens.json"),
            None,
            owned("__MAKY_TEST_API_KEY__"),
        )
    }
}

} // verus!
