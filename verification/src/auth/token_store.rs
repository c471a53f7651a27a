//! Persistence of OAuth tokens behind the `TokenStore` contract.
use vstd::prelude::*;

use crate::auth::provider::{AuthError, AuthSession};
use crate::text::{chars_eq, chars_of, concat2, concat3, lower, owned};

verus! {

/// Which token store backs the runtime.
#[derive(Debug, Clone, Copy, PartialEq, Eq, Structural)]
pub enum ActiveTokenStoreBackend {
    Keyring,
    FileFallback,
    FileOnly,
}

impl ActiveTokenStoreBackend {
    pub open spec fn spec_label(self) -> Seq<char> {
        match self {
            ActiveTokenStoreBackend::Keyring => "keyring"@,
            ActiveTokenStoreBackend::FileFallback => "file-fallback"@,
            ActiveTokenStoreBackend::FileOnly => "file"@,
        }
    }

    pub fn label(&self) -> (r: &'static str)
        ensures
            r@ == self.spec_label(),
    {
        match self {
            ActiveTokenStoreBackend::Keyring => "keyring",
            ActiveTokenStoreBackend::FileFallback => "file-fallback",
            ActiveTokenStoreBackend::FileOnly => "file",
        }
    }
}

/// The persisted form of an `AuthSession`.
#[derive(Debug, Clone, PartialEq, Eq)]
pub struct StoredToken {
    pub provider_id: String,
    pub access_token: String,
    pub refresh_token: Option<String>,
    pub expires_at_unix_secs: Option<u64>,
    pub id_token: Option<String>,
    pub account_id: Option<String>,
}

/// A copy of an optional string.
pub fn copy_opt(s: &Option<String>) -> (r: Option<String>)
    ensures
        r == *s,
{
    match s {
        Some(v) => Some(v.clone()),
        None => None,
    }
}

impl StoredToken {
    /// The session that this token stores (field by field).
    pub open spec fn spec_session(self) -> AuthSession {
        AuthSession {
            provider_id: self.provider_id,
            access_token: self.access_token,
            refresh_token: self.refresh_token,
            expires_at_unix_secs: self.expires_at_unix_secs,
            id_token: self.id_token,
            account_id: self.account_id,
        }
    }

    /// The token that stores `session` (field by field).
    pub open spec fn spec_from_session(session: AuthSession) -> StoredToken {
        StoredToken {
            provider_id: session.provider_id,
            access_token: session.access_token,
            refresh_token: session.refresh_token,
            expires_at_unix_secs: session.expires_at_unix_secs,
            id_token: session.id_token,
            account_id: session.account_id,
        }
    }

    pub fn into_session(self) -> (r: AuthSession)
        ensures
            r == self.spec_session(),
    {
        AuthSession {
            provider_id: self.provider_id,
            access_token: self.access_token,
            refresh_token: self.refresh_token,
            expires_at_unix_secs: self.expires_at_unix_secs,
            id_token: self.id_token,
            account_id: self.account_id,
        }
    }

    pub fn from_session(session: &AuthSession) -> (r: Self)
        ensures
            r == Self::spec_from_session(*session),
    {
        StoredToken {
            provider_id: session.provider_id.clone(),
            access_token: session.access_token.clone(),
            refresh_token: copy_opt(&session.refresh_token),
            expires_at_unix_secs: session.expires_at_unix_secs,
            id_token: copy_opt(&session.id_token),
            account_id: copy_opt(&session.account_id),
        }
    }

    /// A copy of this token.
    pub fn duplicate(&self) -> (r: Self)
        ensures
            r == *self,
    {
        StoredToken {
            provider_id: self.provider_id.clone(),
            access_token: self.access_token.clone(),
            refresh_token: copy_opt(&self.refresh_token),
            expires_at_unix_secs: self.expires_at_unix_secs,
            id_token: copy_opt(&self.id_token),
            account_id: copy_opt(&self.account_id),
        }
    }
}

/// A place where tokens are kept, keyed by provider id.
///
/// `stored` is what the store holds for a provider id: a successful `load`
/// returns it, and a successful `save` or `clear` changes it for that
/// provider id only.
pub trait TokenStore {
    spec fn stored(&self, provider_id: Seq<char>) -> Option<StoredToken>;

    /// Whether the store's contents can be read: then every `load`
    /// succeeds, and otherwise every operation fails.
    spec fn readable(&self) -> bool;

    /// Whether nothing outside the store can refuse a write: then every
    /// `save` and `clear` succeeds.
    spec fn writes_succeed(&self) -> bool;

    fn load(&self, provider_id: &str) -> (r: Result<Option<StoredToken>, AuthError>)
        ensures
            r matches Ok(t) ==> t == self.stored(provider_id@),
            r is Ok <==> self.readable(),
    ;

    fn save(&mut self, token: &StoredToken) -> (r: Result<(), AuthError>)
        ensures
            r is Ok ==> forall|k: Seq<char>|
                #[trigger] final(self).stored(k) == if k == token.provider_id@ {
                    Some(*token)
                } else {
                    old(self).stored(k)
                },
            r is Err ==> forall|k: Seq<char>| #[trigger] final(self).stored(k) == old(self).stored(k),
            old(self).writes_succeed() ==> r is Ok,
            !old(self).readable() ==> r is Err,
            final(self).readable() == old(self).readable(),
            final(self).writes_succeed() == old(self).writes_succeed(),
    ;

    fn clear(&mut self, provider_id: &str) -> (r: Result<(), AuthError>)
        ensures
            r is Ok ==> forall|k: Seq<char>|
                #[trigger] final(self).stored(k) == if k == provider_id@ {
                    None
                } else {
                    old(self).stored(k)
                },
            r is Err ==> forall|k: Seq<char>| #[trigger] final(self).stored(k) == old(self).stored(k),
            old(self).writes_succeed() ==> r is Ok,
            !old(self).readable() ==> r is Err,
            final(self).readable() == old(self).readable(),
            final(self).writes_succeed() == old(self).writes_succeed(),
    ;
}

/// The last entry of `entries` stored under `k`.
pub open spec fn find_token(entries: Seq<StoredToken>, k: Seq<char>) -> Option<StoredToken>
    decreases entries.len(),
{
    if entries.len() == 0 {
        None
    } else if entries.last().provider_id@ == k {
        Some(entries.last())
    } else {
        find_token(entries.drop_last(), k)
    }
}

/// `entries` without the entries stored under `k`.
pub open spec fn without_key(entries: Seq<StoredToken>, k: Seq<char>) -> Seq<StoredToken> {
    entries.filter(|t: StoredToken| t.provider_id@ != k)
}

proof fn lemma_find_without(entries: Seq<StoredToken>, id: Seq<char>, k: Seq<char>)
    ensures
        find_token(without_key(entries, id), k) == if k == id {
            None
        } else {
            find_token(entries, k)
        },
    decreases entries.len(),
{
    reveal(Seq::filter);
    if entries.len() > 0 {
        lemma_find_without(entries.drop_last(), id, k);
        let sub = without_key(entries.drop_last(), id);
        let x = entries.last();
        if x.provider_id@ != id {
            assert(without_key(entries, id) == sub.push(x));
            assert(sub.push(x).last() == x);
            assert(sub.push(x).drop_last() =~= sub);
        } else {
            assert(without_key(entries, id) == sub);
        }
    } else {
        assert(without_key(entries, id) =~= Seq::<StoredToken>::empty());
    }
}

/// A token store that lives in memory for the lifetime of the process.
#[derive(Debug, Default)]
pub struct InMemoryTokenStore {
    tokens: Vec<StoredToken>,
}

impl InMemoryTokenStore {
    pub fn new() -> (r: Self)
        ensures
            forall|k: Seq<char>| #[trigger] r.stored(k) == None::<StoredToken>,
    {
        InMemoryTokenStore { tokens: Vec::new() }
    }

    /// A store holding `tokens` (the last one under an id wins).
    pub fn from_tokens(tokens: Vec<StoredToken>) -> (r: Self)
        ensures
            forall|k: Seq<char>| #[trigger] r.stored(k) == find_token(tokens@, k),
    {
        InMemoryTokenStore { tokens }
    }

    /// A copy of the stored tokens.
    pub fn tokens(&self) -> (r: Vec<StoredToken>)
        ensures
            forall|k: Seq<char>| #[trigger] find_token(r@, k) == self.stored(k),
    {
        let mut out: Vec<StoredToken> = Vec::new();
        let mut i: usize = 0;
        while i < self.tokens.len()
            invariant
                i <= self.tokens@.len(),
                out@ == self.tokens@.take(i as int),
            decreases self.tokens@.len() - i,
        {
            out.push(self.tokens[i].duplicate());
            i = i + 1;
            assert(out@ =~= self.tokens@.take(i as int));
        }
        assert(out@ =~= self.tokens@);
        out
    }

    fn remove_key(&mut self, id: &Vec<char>)
        ensures
            final(self).tokens@ == without_key(old(self).tokens@, id@),
    {
        let mut kept: Vec<StoredToken> = Vec::new();
        let mut i: usize = 0;
        while i < self.tokens.len()
            invariant
                i <= self.tokens@.len(),
                kept@ == without_key(self.tokens@.take(i as int), id@),
            decreases self.tokens@.len() - i,
        {
            let key = chars_of(self.tokens[i].provider_id.as_str());
            proof {
                reveal(Seq::filter);
                assert(self.tokens@.take(i + 1).drop_last() =~= self.tokens@.take(i as int));
            }
            if !chars_eq(&key, id) {
                kept.push(self.tokens[i].duplicate());
            }
            i = i + 1;
        }
        assert(self.tokens@.take(i as int) =~= self.tokens@);
        self.tokens = kept;
    }
}

impl TokenStore for InMemoryTokenStore {
    closed spec fn stored(&self, provider_id: Seq<char>) -> Option<StoredToken> {
        find_token(self.tokens@, provider_id)
    }

    open spec fn readable(&self) -> bool {
        true
    }

    open spec fn writes_succeed(&self) -> bool {
        true
    }

    fn load(&self, provider_id: &str) -> (r: Result<Option<StoredToken>, AuthError>)
        ensures
            r == Ok::<Option<StoredToken>, AuthError>(self.stored(provider_id@)),
    {
        let key = chars_of(provider_id);
        let mut i: usize = self.tokens.len();
        assert(self.tokens@.take(i as int) =~= self.tokens@);
        while i > 0
            invariant
                i <= self.tokens@.len(),
                key@ == provider_id@,
                find_token(self.tokens@, provider_id@) == find_token(
                    self.tokens@.take(i as int),
                    provider_id@,
                ),
            decreases i,
        {
            let entry = &self.tokens[i - 1];
            let k = chars_of(entry.provider_id.as_str());
            assert(*entry == self.tokens@[i - 1]);
            assert(k@ == entry.provider_id@);
            proof {
                assert(self.tokens@.take(i as int).drop_last() =~= self.tokens@.take(i - 1));
            }
            if chars_eq(&k, &key) {
                assert(self.tokens@.take(i as int).last() == self.tokens@[i - 1]);
                return Ok(Some(self.tokens[i - 1].duplicate()));
            }
            i = i - 1;
        }
        proof {
            assert(self.tokens@.take(0) =~= Seq::<StoredToken>::empty());
        }
        Ok(None)
    }

    fn save(&mut self, token: &StoredToken) -> (r: Result<(), AuthError>)
        ensures
            r is Ok,
    {
        let key = chars_of(token.provider_id.as_str());
        self.remove_key(&key);
        self.tokens.push(token.duplicate());
        proof {
            assert forall|k: Seq<char>| #[trigger]
                self.stored(k) == if k == token.provider_id@ {
                    Some(*token)
                } else {
                    old(self).stored(k)
                } by {
                assert(self.tokens@.drop_last() == without_key(old(self).tokens@, key@));
                lemma_find_without(old(self).tokens@, key@, k);
            }
        }
        Ok(())
    }

    fn clear(&mut self, provider_id: &str) -> (r: Result<(), AuthError>)
        ensures
            r is Ok,
    {
        let key = chars_of(provider_id);
        self.remove_key(&key);
        proof {
            assert forall|k: Seq<char>| #[trigger]
                self.stored(k) == if k == provider_id@ {
                    None
                } else {
                    old(self).stored(k)
                } by {
                lemma_find_without(old(self).tokens@, key@, k);
            }
        }
        Ok(())
    }
}

/// A token store standing for an OS keyring that is not available.
#[derive(Debug, Clone, PartialEq, Eq)]
pub struct KeyringUnavailableTokenStore {
    reason: String,
}

impl Default for KeyringUnavailableTokenStore {
    fn default() -> (r: Self)
        ensures
            r.spec_error() == "keyring unavailable: "@
                + "OS keyring integration is not wired in Phase 3"@,
    {
        KeyringUnavailableTokenStore { reason: owned("OS keyring integration is not wired in Phase 3") }
    }
}

impl KeyringUnavailableTokenStore {
    /// The message of every error this store returns.
    pub closed spec fn spec_error(&self) -> Seq<char> {
        "keyring unavailable: "@ + self.reason@
    }

    fn unavailable_error(&self) -> (r: AuthError)
        ensures
            r.message@ == self.spec_error(),
    {
        AuthError { message: concat2("keyring unavailable: ", self.reason.as_str()) }
    }
}

impl TokenStore for KeyringUnavailableTokenStore {
    open spec fn stored(&self, provider_id: Seq<char>) -> Option<StoredToken> {
        None
    }

    open spec fn readable(&self) -> bool {
        false
    }

    open spec fn writes_succeed(&self) -> bool {
        false
    }

    fn load(&self, provider_id: &str) -> (r: Result<Option<StoredToken>, AuthError>)
        ensures
            r matches Err(e) && e.message@ == self.spec_error(),
    {
        Err(self.unavailable_error())
    }

    fn save(&mut self, token: &StoredToken) -> (r: Result<(), AuthError>)
        ensures
            r matches Err(e) && e.message@ == old(self).spec_error(),
    {
        Err(self.unavailable_error())
    }

    fn clear(&mut self, provider_id: &str) -> (r: Result<(), AuthError>)
        ensures
            r matches Err(e) && e.message@ == old(self).spec_error(),
    {
        Err(self.unavailable_error())
    }
}

/// The backend and warning chosen from the result of probing the keyring.
pub open spec fn spec_probe_outcome(
    probe: Result<Option<StoredToken>, AuthError>,
    fallback_path: Seq<char>,
) -> (ActiveTokenStoreBackend, Option<Seq<char>>) {
    match probe {
        Ok(_) => (ActiveTokenStoreBackend::Keyring, None),
        Err(e) => (
            ActiveTokenStoreBackend::FileFallback,
            Some(
                "Keyring token store is unavailable ("@ + e.message@
                    + "). Falling back to file token store at "@ + fallback_path,
            ),
        ),
    }
}

/// Chooses the active backend from the keyring probe: the keyring when it
/// answers, the file fallback with a warning otherwise.
pub fn probe_outcome(
    probe: Result<Option<StoredToken>, AuthError>,
    fallback_path: &str,
) -> (r: (ActiveTokenStoreBackend, Option<String>))
    ensures
        r.0 == spec_probe_outcome(probe, fallback_path@).0,
        r.1 matches Some(w) ==> spec_probe_outcome(probe, fallback_path@).1 == Some(w@),
        r.1 is None ==> spec_probe_outcome(probe, fallback_path@).1 is None,
{
    match probe {
        Ok(_) => (ActiveTokenStoreBackend::Keyring, None),
        Err(e) => {
            let mut w = concat3("Keyring token store is unavailable (", e.message.as_str(), ")");
            w.append(". Falling back to file token store at ");
            w.append(fallback_path);
            assert(w@ =~= "Keyring token store is unavailable ("@ + e.message@
                + "). Falling back to file token store at "@ + fallback_path@) by {
                reveal_strlit(")");
                reveal_strlit(". Falling back to file token store at ");
                reveal_strlit("). Falling back to file token store at ");
            }
            (ActiveTokenStoreBackend::FileFallback, Some(w))
        },
    }
}

/// The keyring when it is available, a file store otherwise.
#[derive(Debug)]
pub struct KeyringFirstTokenStore<F> {
    keyring: KeyringUnavailableTokenStore,
    file_fallback: F,
    active_backend: ActiveTokenStoreBackend,
    startup_warning: Option<String>,
}

impl<F: TokenStore> KeyringFirstTokenStore<F> {
    /// Probes the keyring and falls back to `file_fallback`, whose location
    /// `fallback_path` names in the warning.
    pub fn new(file_fallback: F, fallback_path: &str) -> (r: Self)
        ensures
            r.spec_backend() == ActiveTokenStoreBackend::FileFallback,
            r.spec_warning() matches Some(w) && w == "Keyring token store is unavailable (keyring unavailable: OS keyring integration is not wired in Phase 3). Falling back to file token store at "@
                + fallback_path@,
            r.spec_fallback() == file_fallback,
    {
        let keyring = KeyringUnavailableTokenStore::default();
        let probe = keyring.load("__maky_keyring_probe__");
        let (active_backend, startup_warning) = probe_outcome(probe, fallback_path);
        proof {
            reveal_strlit("Keyring token store is unavailable (");
            reveal_strlit("keyring unavailable: ");
            reveal_strlit("OS keyring integration is not wired in Phase 3");
            reveal_strlit("). Falling back to file token store at ");
            reveal_strlit("Keyring token store is unavailable (keyring unavailable: OS keyring integration is not wired in Phase 3). Falling back to file token store at ");
            assert(startup_warning->0@ =~= "Keyring token store is unavailable (keyring unavailable: OS keyring integration is not wired in Phase 3). Falling back to file token store at "@
                + fallback_path@);
        }
        KeyringFirstTokenStore { keyring, file_fallback, active_backend, startup_warning }
    }

    pub closed spec fn spec_fallback(&self) -> F {
        self.file_fallback
    }

    pub closed spec fn spec_warning(&self) -> Option<Seq<char>> {
        match self.startup_warning {
            Some(w) => Some(w@),
            None => None,
        }
    }

    pub closed spec fn spec_backend(&self) -> ActiveTokenStoreBackend {
        self.active_backend
    }

    pub fn active_backend(&self) -> (r: ActiveTokenStoreBackend)
        ensures
            r == self.spec_backend(),
    {
        self.active_backend
    }

    pub fn startup_warning(&self) -> (r: Option<&str>)
        ensures
            r matches Some(w) ==> self.spec_warning() == Some(w@),
            r is None ==> self.spec_warning() is None,
    {
        match &self.startup_warning {
            Some(w) => Some(w.as_str()),
            None => None,
        }
    }
}

impl<F: TokenStore> TokenStore for KeyringFirstTokenStore<F> {
    closed spec fn stored(&self, provider_id: Seq<char>) -> Option<StoredToken> {
        match self.active_backend {
            ActiveTokenStoreBackend::Keyring => self.keyring.stored(provider_id),
            _ => self.file_fallback.stored(provider_id),
        }
    }

    /// The active backend's.
    closed spec fn readable(&self) -> bool {
        match self.active_backend {
            ActiveTokenStoreBackend::Keyring => self.keyring.readable(),
            _ => self.file_fallback.readable(),
        }
    }

    /// The active backend's.
    closed spec fn writes_succeed(&self) -> bool {
        match self.active_backend {
            ActiveTokenStoreBackend::Keyring => self.keyring.writes_succeed(),
            _ => self.file_fallback.writes_succeed(),
        }
    }

    fn load(&self, provider_id: &str) -> (r: Result<Option<StoredToken>, AuthError>) {
        match self.active_backend {
            ActiveTokenStoreBackend::Keyring => self.keyring.load(provider_id),
            _ => self.file_fallback.load(provider_id),
        }
    }

    fn save(&mut self, token: &StoredToken) -> (r: Result<(), AuthError>) {
        match self.active_backend {
            ActiveTokenStoreBackend::Keyring => self.keyring.save(token),
            _ => self.file_fallback.save(token),
        }
    }

    fn clear(&mut self, provider_id: &str) -> (r: Result<(), AuthError>) {
        match self.active_backend {
            ActiveTokenStoreBackend::Keyring => self.keyring.clear(provider_id),
            _ => self.file_fallback.clear(provider_id),
        }
    }
}

/// A keyring-first store is its file fallback unless the keyring is the
/// active backend, and then the (unavailable) keyring: it holds nothing,
/// cannot be read and refuses writes.
pub proof fn lemma_keyring_first_delegates<F: TokenStore>(k: KeyringFirstTokenStore<F>)
    ensures
        k.spec_backend() != ActiveTokenStoreBackend::Keyring ==> {
            &&& forall|pid: Seq<char>| #[trigger] k.stored(pid) == k.spec_fallback().stored(pid)
            &&& k.readable() == k.spec_fallback().readable()
            &&& k.writes_succeed() == k.spec_fallback().writes_succeed()
        },
        k.spec_backend() == ActiveTokenStoreBackend::Keyring ==> {
            &&& forall|pid: Seq<char>| #[trigger] k.stored(pid) is None
            &&& !k.readable()
            &&& !k.writes_succeed()
        },
{
}

/// A bootstrap store is the store it selected.
pub proof fn lemma_bootstrap_store_delegates<F: TokenStore>(b: BootstrapStore<F>)
    ensures
        b matches BootstrapStore::File(f) ==> {
            &&& forall|pid: Seq<char>| #[trigger] b.stored(pid) == f.stored(pid)
            &&& b.readable() == f.readable()
            &&& b.writes_succeed() == f.writes_succeed()
        },
        b matches BootstrapStore::KeyringFirst(k) ==> {
            &&& forall|pid: Seq<char>| #[trigger] b.stored(pid) == k.stored(pid)
            &&& b.readable() == k.readable()
            &&& b.writes_succeed() == k.writes_succeed()
        },
{
}

/// `build_token_store` selects the file-only backend for this mode
/// (compared without regard to ASCII case).
pub open spec fn is_file_mode(mode: Seq<char>) -> bool {
    lower(mode) == "file"@
}

/// Whether a configured token-store mode selects the file-only backend.
pub fn selects_file_store(mode: &str) -> (r: bool)
    ensures
        r == is_file_mode(mode@),
{
    let m = crate::text::lower_chars(&chars_of(mode));
    let f = chars_of("file");
    chars_eq(&m, &f)
}

/// The store a configured mode selects: the file store alone, or the
/// keyring with the file store as its fallback.
#[derive(Debug)]
pub enum BootstrapStore<F> {
    File(F),
    KeyringFirst(KeyringFirstTokenStore<F>),
}

impl<F: TokenStore> TokenStore for BootstrapStore<F> {
    closed spec fn stored(&self, provider_id: Seq<char>) -> Option<StoredToken> {
        match self {
            BootstrapStore::File(f) => f.stored(provider_id),
            BootstrapStore::KeyringFirst(k) => k.stored(provider_id),
        }
    }

    /// The selected store's.
    closed spec fn readable(&self) -> bool {
        match self {
            BootstrapStore::File(f) => f.readable(),
            BootstrapStore::KeyringFirst(k) => k.readable(),
        }
    }

    /// The selected store's.
    closed spec fn writes_succeed(&self) -> bool {
        match self {
            BootstrapStore::File(f) => f.writes_succeed(),
            BootstrapStore::KeyringFirst(k) => k.writes_succeed(),
        }
    }

    fn load(&self, provider_id: &str) -> (r: Result<Option<StoredToken>, AuthError>) {
        match self {
            BootstrapStore::File(f) => f.load(provider_id),
            BootstrapStore::KeyringFirst(k) => k.load(provider_id),
        }
    }

    fn save(&mut self, token: &StoredToken) -> (r: Result<(), AuthError>) {
        match self {
            BootstrapStore::File(f) => f.save(token),
            BootstrapStore::KeyringFirst(k) => k.save(token),
        }
    }

    fn clear(&mut self, provider_id: &str) -> (r: Result<(), AuthError>) {
        match self {
            BootstrapStore::File(f) => f.clear(provider_id),
            BootstrapStore::KeyringFirst(k) => k.clear(provider_id),
        }
    }
}

/// The token store selected at startup, with its backend and warning.
#[derive(Debug)]
pub struct TokenStoreBootstrap<F> {
    pub store: BootstrapStore<F>,
    pub backend: ActiveTokenStoreBackend,
    pub warning: Option<String>,
}

/// Builds the token store for a configured mode: `file` (any ASCII case)
/// selects the file store alone; any other mode puts the keyring first and
/// falls back to the file store at `fallback_path`.
pub fn build_token_store<F: TokenStore>(mode: &str, file_store: F, fallback_path: &str) -> (r:
    TokenStoreBootstrap<F>)
    ensures
        is_file_mode(mode@) ==> {
            &&& r.store == BootstrapStore::File(file_store)
            &&& r.backend == ActiveTokenStoreBackend::FileOnly
            &&& r.warning is None
        },
        !is_file_mode(mode@) ==> {
            &&& r.store matches BootstrapStore::KeyringFirst(k) && k.spec_fallback() == file_store
                && k.spec_backend() == r.backend && k.spec_warning() == (match r.warning {
                Some(w) => Some(w@),
                None => None,
            })
            &&& r.backend == ActiveTokenStoreBackend::FileFallback
            &&& r.warning matches Some(w) && w@
                == "Keyring token store is unavailable (keyring unavailable: OS keyring integration is not wired in Phase 3). Falling back to file token store at "@
                + fallback_path@
        },
{
    if selects_file_store(mode) {
        return TokenStoreBootstrap {
            store: BootstrapStore::File(file_store),
            backend: ActiveTokenStoreBackend::FileOnly,
            warning: None,
        };
    }
    let keyring_first = KeyringFirstTokenStore::new(file_store, fallback_path);
    let backend = keyring_first.active_backend();
    let warning = match keyring_first.startup_warning() {
        Some(w) => Some(owned(w)),
        None => None,
    };
    TokenStoreBootstrap { store: BootstrapStore::KeyringFirst(keyring_first), backend, warning }
}

/// A session survives being stored: the token stored for a session gives
/// back that session, and a stored token is the token of its session.
pub proof fn law_stored_session_round_trip(session: AuthSession, token: StoredToken)
    ensures
        StoredToken::spec_from_session(session).spec_session() == session,
        StoredToken::spec_from_session(token.spec_session()) == token,
{
}

/// On a store, saving a token and then loading its provider id gives the
/// token back, and clearing an id makes it load nothing; other ids keep
/// what they held.
pub proof fn law_save_then_load<S: TokenStore>(
    before: S,
    after_save: S,
    after_clear: S,
    token: StoredToken,
    other: Seq<char>,
)
    requires
        forall|k: Seq<char>|
            #[trigger] after_save.stored(k) == if k == token.provider_id@ {
                Some(token)
            } else {
                before.stored(k)
            },
        forall|k: Seq<char>|
            #[trigger] after_clear.stored(k) == if k == token.provider_id@ {
                None
            } else {
                after_save.stored(k)
            },
        other != token.provider_id@,
    ensures
        after_save.stored(token.provider_id@) == Some(token),
        after_clear.stored(token.provider_id@) is None,
        after_clear.stored(other) == before.stored(other),
{
    assert(after_save.stored(other) == before.stored(other));
    assert(after_clear.stored(other) == after_save.stored(other));
    assert(after_save.stored(token.provider_id@) == Some(token));
    assert(after_clear.stored(token.provider_id@) is None);
}

/// The token file as a whole: reading and writing all of its tokens
/// (the front end keeps it as JSON on disk).
pub trait TokenFile {
    fn read_tokens(&self) -> Result<Vec<StoredToken>, AuthError>;

    fn write_tokens(&self, tokens: &Vec<StoredToken>) -> Result<(), AuthError>;
}

/// Tokens kept in a token file. The file is read when the store is opened;
/// every save and clear writes the whole set back, and the store holds what
/// it last read or wrote. A file that could not be read makes every
/// operation fail with that error.
#[derive(Debug)]
pub struct FileTokenStore<F> {
    file: F,
    cache: InMemoryTokenStore,
    read_error: Option<String>,
}

impl<F: TokenFile> FileTokenStore<F> {
    pub closed spec fn spec_file(&self) -> F {
        self.file
    }

    /// Opens the store on a token file, reading the tokens it holds.
    pub fn new(file: F) -> (r: Self)
        ensures
            r.spec_file() == file,
    {
        match file.read_tokens() {
            Ok(tokens) => FileTokenStore {
                file,
                cache: InMemoryTokenStore::from_tokens(tokens),
                read_error: None,
            },
            Err(e) => FileTokenStore {
                file,
                cache: InMemoryTokenStore::new(),
                read_error: Some(e.message),
            },
        }
    }

    /// The token file.
    pub fn path(&self) -> (r: &F)
        ensures
            *r == self.spec_file(),
    {
        &self.file
    }
}

impl<F: TokenFile> TokenStore for FileTokenStore<F> {
    closed spec fn stored(&self, provider_id: Seq<char>) -> Option<StoredToken> {
        self.cache.stored(provider_id)
    }

    /// The file could be read when the store was opened.
    closed spec fn readable(&self) -> bool {
        self.read_error is None
    }

    /// A write goes to the token file, which may refuse it.
    closed spec fn writes_succeed(&self) -> bool {
        false
    }

    fn load(&self, provider_id: &str) -> (r: Result<Option<StoredToken>, AuthError>) {
        match &self.read_error {
            Some(m) => Err(AuthError { message: m.clone() }),
            None => self.cache.load(provider_id),
        }
    }

    fn save(&mut self, token: &StoredToken) -> (r: Result<(), AuthError>) {
        if let Some(m) = &self.read_error {
            return Err(AuthError { message: m.clone() });
        }
        let mut next = InMemoryTokenStore::from_tokens(self.cache.tokens());
        let _ = next.save(token);
        let all = next.tokens();
        match self.file.write_tokens(&all) {
            Ok(()) => {
                self.cache = next;
                Ok(())
            },
            Err(e) => Err(e),
        }
    }

    fn clear(&mut self, provider_id: &str) -> (r: Result<(), AuthError>) {
        if let Some(m) = &self.read_error {
            return Err(AuthError { message: m.clone() });
        }
        let mut next = InMemoryTokenStore::from_tokens(self.cache.tokens());
        let _ = next.clear(provider_id);
        let all = next.tokens();
        match self.file.write_tokens(&all) {
            Ok(()) => {
                self.cache = next;
                Ok(())
            },
            Err(e) => Err(e),
        }
    }
}

} // verus!
