//! Application configuration: defaults and overrides.
use vstd::prelude::*;

use crate::text::{
    chars_eq, chars_of, is_ws, lower, lower_chars, owned, string_of, trim, trim_chars, trim_end,
    trim_start,
};

verus! {

#[derive(Debug, Clone, PartialEq, Eq)]
pub struct AuthConfig {
    pub mode: String,
    pub token_store: String,
}

#[derive(Debug, Clone, PartialEq, Eq)]
pub struct OpenAiConfig {
    pub base_url: String,
    pub api_key_env: String,
    pub variant: String,
}

#[derive(Debug, Clone, PartialEq, Eq)]
pub struct AppConfig {
    pub provider: String,
    pub model: String,
    pub auth: AuthConfig,
    pub openai: OpenAiConfig,
    pub session_db_path: String,
    pub approval_policy: String,
    pub ui_alt_screen: bool,
}

impl AppConfig {
    /// The configuration used when nothing overrides it.
    pub open spec fn spec_default_holds(c: AppConfig) -> bool {
        &&& c.provider@ == "openai"@
        &&& c.model@ == "openai/gpt-5.3-codex"@
        &&& c.auth.mode@ == "oauth"@
        &&& c.auth.token_store@ == "keyring"@
        &&& c.openai.base_url@ == "https://api.openai.com/v1"@
        &&& c.openai.api_key_env@ == "OPENAI_API_KEY"@
        &&& c.openai.variant@ == "medium"@
        &&& c.session_db_path@ == ".maky/sessions.db"@
        &&& c.approval_policy@ == "on-request"@
        &&& c.ui_alt_screen
    }
}

impl Default for AppConfig {
    fn default() -> (r: Self)
        ensures
            AppConfig::spec_default_holds(r),
    {
        AppConfig {
            provider: owned("openai"),
            model: owned("openai/gpt-5.3-codex"),
            auth: AuthConfig { mode: owned("oauth"), token_store: owned("keyring") },
            openai: OpenAiConfig {
                base_url: owned("https://api.openai.com/v1"),
                api_key_env: owned("OPENAI_API_KEY"),
                variant: owned("medium"),
            },
            session_db_path: owned(".maky/sessions.db"),
            approval_policy: owned("on-request"),
            ui_alt_screen: true,
        }
    }
}

/// The reasoning variants the OpenAI provider accepts.
pub open spec fn is_supported_variant(v: Seq<char>) -> bool {
    v == "low"@ || v == "medium"@ || v == "high"@ || v == "xhigh"@
}

/// The normalized (trimmed, ASCII-lowercased) variant when it is supported.
pub open spec fn spec_normalize_variant(value: Seq<char>) -> Option<Seq<char>> {
    let n = lower(trim(value));
    if is_supported_variant(n) {
        Some(n)
    } else {
        None
    }
}

proof fn lemma_lower_trim_fixed(v: Seq<char>)
    requires
        v.len() > 0,
        forall|i: int| 0 <= i < v.len() ==> 'a' <= #[trigger] v[i] <= 'z',
    ensures
        lower(trim(v)) == v,
{
    assert(!is_ws(v[0]));
    assert(trim_start(v) == v);
    assert(!is_ws(v.last()));
    assert(trim_end(v) == v);
    assert(lower(v) =~= v);
}

proof fn lemma_supported_variant_normal(n: Seq<char>)
    requires
        is_supported_variant(n),
    ensures
        lower(trim(n)) == n,
{
    reveal_strlit("low");
    reveal_strlit("medium");
    reveal_strlit("high");
    reveal_strlit("xhigh");
    lemma_lower_trim_fixed(n);
}

/// Normalizing a normalized variant gives it back.
pub proof fn law_normalize_variant_idempotent(value: Seq<char>)
    ensures
        spec_normalize_variant(value) matches Some(n) ==> spec_normalize_variant(n) == Some(n),
{
    if let Some(n) = spec_normalize_variant(value) {
        let t = trim(value);
        assert(n == lower(t));
        assert(is_supported_variant(n));
        lemma_supported_variant_normal(n);
    }
}

fn is_lit(v: &Vec<char>, lit: &str) -> (r: bool)
    ensures
        r == (v@ == lit@),
{
    chars_eq(v, &chars_of(lit))
}

/// Normalizes a configured OpenAI reasoning variant.
pub fn normalize_openai_variant(value: &str) -> (r: Option<String>)
    ensures
        r matches Some(s) ==> spec_normalize_variant(value@) == Some(s@),
        r is None ==> spec_normalize_variant(value@) is None,
{
    let normalized = lower_chars(&trim_chars(&chars_of(value)));
    if is_lit(&normalized, "low") || is_lit(&normalized, "medium") || is_lit(&normalized, "high")
        || is_lit(&normalized, "xhigh") {
        Some(string_of(&normalized))
    } else {
        None
    }
}

/// Values read from the environment that override the defaults.
#[derive(Debug, Clone, Default, PartialEq, Eq)]
pub struct ConfigOverrides {
    pub provider: Option<String>,
    pub model: Option<String>,
    pub auth_mode: Option<String>,
    pub auth_token_store: Option<String>,
    pub api_key_env: Option<String>,
    pub variant: Option<String>,
    pub session_db_path: Option<String>,
    pub approval_policy: Option<String>,
}

fn pick(over: Option<String>, default: String) -> (r: String)
    ensures
        r == match over {
            Some(v) => v,
            None => default,
        },
{
    match over {
        Some(v) => v,
        None => default,
    }
}

impl AppConfig {
    /// The defaults with every present override applied; a variant override
    /// applies only when it normalizes to a supported variant.
    pub fn from_overrides(o: ConfigOverrides) -> (r: Self)
        ensures
            r.provider@ == (match o.provider { Some(v) => v@, None => "openai"@ }),
            r.model@ == (match o.model { Some(v) => v@, None => "openai/gpt-5.3-codex"@ }),
            r.auth.mode@ == (match o.auth_mode { Some(v) => v@, None => "oauth"@ }),
            r.auth.token_store@ == (match o.auth_token_store { Some(v) => v@, None => "keyring"@ }),
            r.openai.api_key_env@ == (match o.api_key_env { Some(v) => v@, None => "OPENAI_API_KEY"@ }),
            r.openai.variant@ == (match o.variant {
                Some(v) => match spec_normalize_variant(v@) {
                    Some(n) => n,
                    None => "medium"@,
                },
                None => "medium"@,
            }),
            r.session_db_path@ == (match o.session_db_path { Some(v) => v@, None => ".maky/sessions.db"@ }),
            r.approval_policy@ == (match o.approval_policy { Some(v) => v@, None => "on-request"@ }),
            r.openai.base_url@ == "https://api.openai.com/v1"@,
            r.ui_alt_screen,
    {
        let d = AppConfig::default();
        let variant = match &o.variant {
            Some(v) => match normalize_openai_variant(v.as_str()) {
                Some(n) => n,
                None => d.openai.variant,
            },
            None => d.openai.variant,
        };
        AppConfig {
            provider: pick(o.provider, d.provider),
            model: pick(o.model, d.model),
            auth: AuthConfig {
                mode: pick(o.auth_mode, d.auth.mode),
                token_store: pick(o.auth_token_store, d.auth.token_store),
            },
            openai: OpenAiConfig {
                base_url: d.openai.base_url,
                api_key_env: pick(o.api_key_env, d.openai.api_key_env),
                variant,
            },
            session_db_path: pick(o.session_db_path, d.session_db_path),
            approval_policy: pick(o.approval_policy, d.approval_policy),
            ui_alt_screen: d.ui_alt_screen,
        }
    }
}

} // verus!
