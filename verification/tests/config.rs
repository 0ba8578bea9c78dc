use helicone::config::{HeliconeConfig, MANAGED_BASE_URL};

fn record(enabled: bool, api_key: &str, use_self_hosted: bool, self_hosted_url: &str) -> HeliconeConfig {
    HeliconeConfig {
        enabled,
        api_key: api_key.to_string(),
        use_self_hosted,
        self_hosted_url: self_hosted_url.to_string(),
    }
}

#[test]
fn default_record_has_every_default() {
    let config = HeliconeConfig::default();
    assert!(!config.enabled);
    assert_eq!(config.api_key, "");
    assert!(!config.use_self_hosted);
    assert_eq!(config.self_hosted_url, "");
}

#[test]
fn default_record_uses_managed_gateway() {
    assert_eq!(HeliconeConfig::default().get_base_url(), "https://ai-gateway.helicone.ai");
}

#[test]
fn managed_base_url_constant_is_the_gateway() {
    assert_eq!(MANAGED_BASE_URL, "https://ai-gateway.helicone.ai");
}

#[test]
fn self_hosted_url_overrides_base_url() {
    let config = record(false, "", true, "https://helicone.yourcompany.com");
    assert_eq!(config.get_base_url(), "https://helicone.yourcompany.com");
}

#[test]
fn self_hosted_url_is_not_normalized() {
    for url in ["http://localhost:8585/", "  padded  ", "no-scheme", "/", "ünïcödé.example"] {
        let config = record(true, "sk", true, url);
        assert_eq!(config.get_base_url(), url);
    }
}

#[test]
fn self_hosted_with_empty_url_falls_back() {
    let config = record(true, "sk", true, "");
    assert_eq!(config.get_base_url(), "https://ai-gateway.helicone.ai");
    assert_ne!(config.get_base_url(), "");
}

#[test]
fn custom_url_is_ignored_unless_selected() {
    let config = record(true, "sk", false, "https://helicone.yourcompany.com");
    assert_eq!(config.get_base_url(), "https://ai-gateway.helicone.ai");
}

#[test]
fn base_url_does_not_depend_on_enabled_or_key() {
    let a = record(false, "", true, "http://h");
    let b = record(true, "sk-live", true, "http://h");
    assert_eq!(a.get_base_url(), b.get_base_url());
}

#[test]
fn base_url_is_deterministic_and_leaves_record_unchanged() {
    let config = record(true, "sk", true, "http://h");
    let before = config.clone();
    assert_eq!(config.get_base_url(), config.get_base_url());
    assert_eq!(config, before);
}

#[test]
fn clone_keeps_every_field() {
    let config = record(true, "sk-test", true, "http://h");
    let copy = config.clone();
    assert!(copy.enabled);
    assert_eq!(copy.api_key, "sk-test");
    assert!(copy.use_self_hosted);
    assert_eq!(copy.self_hosted_url, "http://h");
}

#[test]
fn equality_compares_every_field() {
    let base = record(true, "sk", true, "http://h");
    assert_eq!(base, record(true, "sk", true, "http://h"));
    assert_ne!(base, record(false, "sk", true, "http://h"));
    assert_ne!(base, record(true, "sk2", true, "http://h"));
    assert_ne!(base, record(true, "sk", false, "http://h"));
    assert_ne!(base, record(true, "sk", true, "http://i"));
}
