use maky::auth::provider::{AuthLoginMethod, AuthSession, AuthStatus};
use std::cell::RefCell;
use std::rc::Rc;

use maky::auth::provider::{AuthError, AuthProvider};
use maky::auth::oauth_chatgpt::{ChatGptOAuth, ChatGptOAuthProvider, JwtClaims, OAuthTransport, TokenResponse};
use maky::auth::token_store::{
    build_token_store, ActiveTokenStoreBackend, FileTokenStore, InMemoryTokenStore,
    KeyringFirstTokenStore, StoredToken, TokenFile, TokenStore,
};
use maky::auth::{AuthRuntime, CredentialSource, MockAuthProvider};

fn oauth_token(provider_id: &str, expires_at_unix_secs: Option<u64>) -> StoredToken {
    StoredToken {
        provider_id: provider_id.to_string(),
        access_token: "stored-access".to_string(),
        refresh_token: Some("stored-refresh".to_string()),
        expires_at_unix_secs,
        id_token: None,
        account_id: None,
    }
}

fn sample_token(provider_id: &str) -> StoredToken {
    StoredToken {
        provider_id: provider_id.to_string(),
        access_token: "access-token".to_string(),
        refresh_token: Some("refresh-token".to_string()),
        expires_at_unix_secs: Some(1_700_000_000),
        id_token: None,
        account_id: None,
    }
}

fn session_expiring_at(expires_at: u64) -> AuthSession {
    AuthSession {
        provider_id: "chatgpt-oauth".to_string(),
        access_token: "token".to_string(),
        refresh_token: Some("refresh".to_string()),
        expires_at_unix_secs: Some(expires_at),
        id_token: None,
        account_id: None,
    }
}

#[test]
fn session_status_is_signed_in_when_not_expired() {
    let session = session_expiring_at(1_000);
    assert_eq!(session.status_at(999), AuthStatus::SignedIn);
}

#[test]
fn session_status_is_expired_at_or_after_expiry() {
    let session = session_expiring_at(1_000);
    assert_eq!(session.status_at(1_000), AuthStatus::Expired);
    assert_eq!(session.status_at(1_001), AuthStatus::Expired);
}

#[test]
fn in_memory_store_round_trip() {
    let mut store = InMemoryTokenStore::default();
    let token = sample_token("chatgpt-oauth");

    store.save(&token).expect("save should work");
    let loaded = store
        .load("chatgpt-oauth")
        .expect("load should work")
        .expect("token should exist");

    assert_eq!(loaded, token);
}

#[test]
fn in_memory_store_clear_removes_only_that_provider() {
    let mut store = InMemoryTokenStore::default();
    store.save(&sample_token("a")).expect("save a");
    store.save(&sample_token("b")).expect("save b");
    store.clear("a").expect("clear a");
    assert_eq!(store.load("a").expect("load a"), None);
    assert_eq!(store.load("b").expect("load b"), Some(sample_token("b")));
}

#[test]
fn stored_token_round_trips_a_session() {
    let session = session_expiring_at(42);
    let stored = StoredToken::from_session(&session);
    assert_eq!(stored.into_session(), session);
}

#[test]
fn keyring_first_store_uses_file_fallback_and_reports_warning() {
    let mut store = KeyringFirstTokenStore::new(InMemoryTokenStore::default(), "tokens.json");
    assert_eq!(store.active_backend(), ActiveTokenStoreBackend::FileFallback);
    let warning = store.startup_warning().expect("warning should explain keyring fallback");
    assert!(warning.contains("Keyring token store is unavailable"));
    assert!(warning.ends_with("tokens.json"));

    store.save(&sample_token("chatgpt-oauth")).expect("save should use file fallback");
    let loaded = store
        .load("chatgpt-oauth")
        .expect("load should use file fallback")
        .expect("token should exist");
    assert_eq!(loaded, sample_token("chatgpt-oauth"));
}

#[test]
fn build_token_store_in_file_mode_selects_file_backend() {
    let bootstrap = build_token_store("FILE", InMemoryTokenStore::default(), "tokens.json");
    assert_eq!(bootstrap.backend.label(), "file");
    assert!(bootstrap.warning.is_none());

    let keyring = build_token_store("keyring", InMemoryTokenStore::default(), "tokens.json");
    assert_eq!(keyring.backend, ActiveTokenStoreBackend::FileFallback);
    assert!(keyring.warning.expect("warning").contains("tokens.json"));
}

#[test]
fn startup_prefers_oauth_session_over_api_key() {
    let mut store = InMemoryTokenStore::default();
    store
        .save(&oauth_token("chatgpt-oauth", Some(u64::MAX)))
        .expect("store save should work");

    let mut runtime = AuthRuntime::with_store_for_tests(store);
    runtime
        .resolve_startup_credentials_with_api_key(Some("sk-test".to_string()))
        .expect("startup resolution should work");

    assert_eq!(runtime.source(), CredentialSource::OAuthSession);
}

#[test]
fn startup_checks_token_file_first() {
    let mut file_store = InMemoryTokenStore::default();
    file_store
        .save(&oauth_token("chatgpt-oauth", Some(u64::MAX)))
        .expect("file token should be written");
    let mut runtime = AuthRuntime::from_parts(
        MockAuthProvider,
        InMemoryTokenStore::default(),
        ActiveTokenStoreBackend::Keyring,
        None,
        "auth_tokens.json".to_string(),
        Some(file_store),
        "__MAKY_TEST_API_KEY__".to_string(),
    );

    runtime
        .resolve_startup_credentials_with_api_key(None)
        .expect("startup resolution should work");

    assert_eq!(runtime.source(), CredentialSource::OAuthSession);
}

#[test]
fn startup_falls_back_to_api_key_when_oauth_missing() {
    let store = InMemoryTokenStore::default();
    let mut runtime = AuthRuntime::with_store_for_tests(store);

    runtime
        .resolve_startup_credentials_with_api_key(Some("sk-test".to_string()))
        .expect("startup resolution should work");

    assert_eq!(runtime.source(), CredentialSource::ApiKey);
    assert_eq!(runtime.status(), AuthStatus::SignedIn);
}

#[test]
fn startup_without_credentials_is_signed_out() {
    let mut runtime = AuthRuntime::for_tests();
    runtime
        .resolve_startup_credentials_with_api_key(None)
        .expect("startup resolution should work");
    assert_eq!(runtime.source(), CredentialSource::SignedOut);
    assert_eq!(runtime.status(), AuthStatus::SignedOut);
    assert_eq!(runtime.resolve_access_token_for_request().expect("resolution"), None);
}

#[test]
fn refresh_happens_before_request_when_session_is_expired() {
    let mut store = InMemoryTokenStore::default();
    store
        .save(&oauth_token("chatgpt-oauth", Some(0)))
        .expect("store save should work");

    let mut runtime = AuthRuntime::with_store_for_tests(store);
    runtime
        .resolve_startup_credentials_with_api_key(None)
        .expect("startup resolution should work");

    let access_token = runtime
        .resolve_access_token_for_request()
        .expect("access token resolution should work")
        .expect("oauth token should be present");

    assert!(
        access_token.contains("refreshed"),
        "expired token should be refreshed before request"
    );
}

#[test]
fn logout_clears_oauth_session() {
    let mut runtime = AuthRuntime::for_tests();
    runtime
        .login(AuthLoginMethod::Browser)
        .expect("login should succeed");

    let status = runtime
        .logout_with_api_key(None)
        .expect("logout should succeed");

    assert_eq!(status, AuthStatus::SignedOut);
    assert_eq!(runtime.source(), CredentialSource::SignedOut);
}

#[test]
fn logout_falls_back_to_a_non_blank_api_key() {
    let mut runtime = AuthRuntime::for_tests();
    runtime.login_default().expect("login should succeed");
    assert_eq!(runtime.source(), CredentialSource::OAuthSession);
    let status = runtime
        .logout_with_api_key(Some("  ".to_string()))
        .expect("logout should succeed");
    assert_eq!(status, AuthStatus::SignedOut);
    runtime.login_default().expect("login should succeed");
    let status = runtime
        .logout_with_api_key(Some("sk-live".to_string()))
        .expect("logout should succeed");
    assert_eq!(status, AuthStatus::SignedIn);
    assert_eq!(runtime.source(), CredentialSource::ApiKey);
}

#[test]
fn status_report_lists_the_auth_fields() {
    let runtime = AuthRuntime::for_tests();
    assert_eq!(
        runtime.status_report(),
        "Auth report | status: signed-out | source: signed-out | provider: chatgpt-oauth | token-store: file"
    );
    assert_eq!(runtime.provider_id(), "chatgpt-oauth");
    assert!(runtime.startup_warning().is_none());
}

/// A token file kept in memory, shared between store instances.
#[derive(Clone, Default)]
struct SharedFile {
    tokens: Rc<RefCell<Option<Vec<StoredToken>>>>,
    broken: bool,
}

impl TokenFile for SharedFile {
    fn read_tokens(&self) -> Result<Vec<StoredToken>, AuthError> {
        if self.broken {
            return Err(AuthError { message: "failed to parse token file".to_string() });
        }
        Ok(self.tokens.borrow().clone().unwrap_or_default())
    }

    fn write_tokens(&self, tokens: &Vec<StoredToken>) -> Result<(), AuthError> {
        *self.tokens.borrow_mut() = Some(tokens.clone());
        Ok(())
    }
}

#[test]
fn file_store_persists_tokens_across_instances() {
    let file = SharedFile::default();
    let mut first = FileTokenStore::new(file.clone());
    first.save(&sample_token("chatgpt-oauth")).expect("save should work");

    let mut second = FileTokenStore::new(file.clone());
    let loaded = second
        .load("chatgpt-oauth")
        .expect("load should work")
        .expect("token should exist");
    assert_eq!(loaded, sample_token("chatgpt-oauth"));

    second.clear("chatgpt-oauth").expect("clear should work");
    let third = FileTokenStore::new(file);
    assert_eq!(third.load("chatgpt-oauth").expect("load should work"), None);
}

#[test]
fn unreadable_token_file_fails_every_operation() {
    let file = SharedFile { broken: true, ..SharedFile::default() };
    let mut store = FileTokenStore::new(file);
    assert!(store.load("chatgpt-oauth").is_err());
    assert!(store.save(&sample_token("chatgpt-oauth")).is_err());
    assert!(store.clear("chatgpt-oauth").is_err());
}

struct FakeTransport {
    refresh: Option<&'static str>,
}

impl OAuthTransport for FakeTransport {
    fn login_tokens(&self, _method: AuthLoginMethod) -> Result<TokenResponse, AuthError> {
        Ok(TokenResponse {
            access_token: "access".to_string(),
            refresh_token: self.refresh.map(str::to_string),
            id_token: Some("id".to_string()),
            expires_in: Some(60),
        })
    }

    fn refresh_tokens(&self, refresh_token: &str) -> Result<TokenResponse, AuthError> {
        Ok(TokenResponse {
            access_token: format!("{refresh_token}-new"),
            refresh_token: None,
            id_token: None,
            expires_in: None,
        })
    }

    fn jwt_claims(&self, token: &str) -> Option<JwtClaims> {
        (token == "id").then(|| JwtClaims {
            chatgpt_account_id: Some("acc-1".to_string()),
            organizations: None,
            openai_auth: None,
        })
    }
}

#[test]
fn chatgpt_login_builds_a_session_from_the_tokens() {
    let oauth = ChatGptOAuth { provider: ChatGptOAuthProvider, transport: FakeTransport { refresh: Some("r") } };
    assert_eq!(oauth.id(), "chatgpt-oauth");
    let session = oauth.login(AuthLoginMethod::Browser).expect("login");
    assert_eq!(session.provider_id, "chatgpt-oauth");
    assert_eq!(session.access_token, "access");
    assert_eq!(session.account_id.as_deref(), Some("acc-1"));
    assert!(session.expires_at_unix_secs.is_some());

    let without_refresh = ChatGptOAuth { provider: ChatGptOAuthProvider, transport: FakeTransport { refresh: None } };
    assert_eq!(
        without_refresh.login(AuthLoginMethod::Headless).unwrap_err().message,
        "oauth login did not return a refresh token"
    );
}

#[test]
fn chatgpt_refresh_renews_expired_sessions_only() {
    let oauth = ChatGptOAuth { provider: ChatGptOAuthProvider, transport: FakeTransport { refresh: Some("r") } };
    let mut expired = session_expiring_at(0);
    oauth.refresh_if_needed(&mut expired).expect("refresh");
    assert_eq!(expired.access_token, "refresh-new");
    assert_eq!(expired.refresh_token.as_deref(), Some("refresh"));

    let mut valid = session_expiring_at(u64::MAX);
    oauth.refresh_if_needed(&mut valid).expect("noop");
    assert_eq!(valid, session_expiring_at(u64::MAX));
}

fn runtime_with_store_and_file_bootstrap(
    store: FileTokenStore<SharedFile>,
    file_store: FileTokenStore<SharedFile>,
) -> AuthRuntime<MockAuthProvider, FileTokenStore<SharedFile>> {
    AuthRuntime::from_parts(
        MockAuthProvider,
        store,
        ActiveTokenStoreBackend::Keyring,
        None,
        "auth_tokens.json".to_string(),
        Some(file_store),
        "__MAKY_TEST_API_KEY__".to_string(),
    )
}

#[test]
fn startup_falls_back_to_configured_store_when_token_file_is_invalid() {
    let invalid_file = SharedFile { broken: true, ..SharedFile::default() };
    let mut store = FileTokenStore::new(SharedFile::default());
    store
        .save(&oauth_token("chatgpt-oauth", Some(u64::MAX)))
        .expect("store save should work");

    let mut runtime =
        runtime_with_store_and_file_bootstrap(store, FileTokenStore::new(invalid_file));
    runtime
        .resolve_startup_credentials_with_api_key(None)
        .expect("startup resolution should work");

    assert_eq!(runtime.source(), CredentialSource::OAuthSession);
}

#[test]
fn startup_with_invalid_token_file_can_still_use_api_key_fallback() {
    let invalid_file = SharedFile { broken: true, ..SharedFile::default() };
    let mut runtime = runtime_with_store_and_file_bootstrap(
        FileTokenStore::new(invalid_file.clone()),
        FileTokenStore::new(invalid_file),
    );

    runtime
        .resolve_startup_credentials_with_api_key(Some("sk-test".to_string()))
        .expect("startup resolution should work");

    assert_eq!(runtime.source(), CredentialSource::ApiKey);
    assert_eq!(runtime.status(), AuthStatus::SignedIn);
}

#[test]
fn startup_skips_the_file_backed_store_when_the_token_file_is_invalid() {
    let invalid_file = SharedFile { broken: true, ..SharedFile::default() };
    let mut store = FileTokenStore::new(SharedFile::default());
    store
        .save(&oauth_token("chatgpt-oauth", Some(u64::MAX)))
        .expect("store save should work");
    let mut runtime = AuthRuntime::from_parts(
        MockAuthProvider,
        store,
        ActiveTokenStoreBackend::FileOnly,
        None,
        "auth_tokens.json".to_string(),
        Some(FileTokenStore::new(invalid_file)),
        "__MAKY_TEST_API_KEY__".to_string(),
    );
    runtime
        .resolve_startup_credentials_with_api_key(None)
        .expect("startup resolution should work");
    assert_eq!(runtime.source(), CredentialSource::SignedOut);
}
