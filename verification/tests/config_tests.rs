use maky::storage::config::{normalize_openai_variant, AppConfig, ConfigOverrides};
use maky::tools::ApprovalPolicy;

#[test]
fn default_openai_model_and_variant_are_set() {
    let config = AppConfig::default();

    assert_eq!(config.provider, "openai");
    assert_eq!(config.model, "openai/gpt-5.3-codex");
    assert_eq!(config.openai.variant, "medium");
}

#[test]
fn normalizes_supported_openai_variants() {
    assert_eq!(normalize_openai_variant("low"), Some("low".to_string()));
    assert_eq!(normalize_openai_variant("Medium"), Some("medium".to_string()));
    assert_eq!(normalize_openai_variant("HIGH"), Some("high".to_string()));
    assert_eq!(normalize_openai_variant(" xhigh "), Some("xhigh".to_string()));
}

#[test]
fn rejects_unsupported_openai_variants() {
    assert_eq!(normalize_openai_variant(""), None);
    assert_eq!(normalize_openai_variant("ultra"), None);
    assert_eq!(normalize_openai_variant("x-high"), None);
}

#[test]
fn normalizing_twice_changes_nothing() {
    let once = normalize_openai_variant("  HiGh").expect("supported");
    assert_eq!(normalize_openai_variant(&once), Some(once.clone()));
}

#[test]
fn overrides_replace_defaults_and_bad_variants_fall_back() {
    let mut overrides = ConfigOverrides::default();
    overrides.model = Some("openai/other".to_string());
    overrides.variant = Some("ultra".to_string());
    let config = AppConfig::from_overrides(overrides);
    assert_eq!(config.model, "openai/other");
    assert_eq!(config.openai.variant, "medium");

    let mut overrides = ConfigOverrides::default();
    overrides.variant = Some(" LOW ".to_string());
    assert_eq!(AppConfig::from_overrides(overrides).openai.variant, "low");
}

#[test]
fn approval_policy_reads_config_values() {
    assert_eq!(ApprovalPolicy::from_config(" Always_Ask "), ApprovalPolicy::AlwaysAsk);
    assert_eq!(ApprovalPolicy::from_config("NEVER"), ApprovalPolicy::Never);
    assert_eq!(ApprovalPolicy::from_config("on-request"), ApprovalPolicy::OnRequest);
    assert_eq!(ApprovalPolicy::from_config("anything"), ApprovalPolicy::OnRequest);
}
