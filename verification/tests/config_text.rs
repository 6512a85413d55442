use codex_switch::config_text::{
    api_provider_base_url, extract_toml_value, normalize_proxy_base_url, trim_api_version_suffix,
};

#[test]
fn toml_value_is_read_from_the_first_assigning_line() {
    let raw = Some(
        "# model = \"commented\"\n  model = \"gpt-5.5\"  \nmodel = \"second\"\nreview_model=o3\n"
            .to_string(),
    );
    assert_eq!(extract_toml_value(&raw, "model").as_deref(), Some("gpt-5.5"));
    assert_eq!(extract_toml_value(&raw, "review_model").as_deref(), Some("o3"));
    assert_eq!(extract_toml_value(&raw, "missing"), None);
    assert_eq!(extract_toml_value(&None, "model"), None);
}

#[test]
fn toml_value_keeps_text_after_the_first_equals_sign() {
    let raw = Some("base_url = \"https://x.example/a=b\"\r\n".to_string());
    assert_eq!(
        extract_toml_value(&raw, "base_url").as_deref(),
        Some("https://x.example/a=b")
    );
}

#[test]
fn api_version_suffix_and_slashes_are_trimmed() {
    assert_eq!(trim_api_version_suffix("  https://api.example.com/v1/  "), "https://api.example.com");
    assert_eq!(trim_api_version_suffix("https://api.example.com//"), "https://api.example.com");
    assert_eq!(trim_api_version_suffix("https://api.example.com/v2"), "https://api.example.com/v2");
    assert_eq!(trim_api_version_suffix("https://api.example.com/v1/v1"), "https://api.example.com/v1");
    assert_eq!(trim_api_version_suffix("   "), "");
    assert_eq!(normalize_proxy_base_url("https://p.example/v1"), "https://p.example");
}

#[test]
fn provider_base_url_always_ends_in_v1() {
    assert_eq!(api_provider_base_url("https://api.example.com"), "https://api.example.com/v1");
    assert_eq!(api_provider_base_url("https://api.example.com/v1/"), "https://api.example.com/v1");
    assert_eq!(api_provider_base_url("https://api.example.com/v1/v1"), "https://api.example.com/v1");
    assert_eq!(api_provider_base_url(""), "/v1");
}
