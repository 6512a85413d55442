use codex_switch::codex_config::{
    account_mode_config, api_auth_json, default_account_config_document, extract_base_url,
    proxy_account_config, proxy_api_config,
};

const DEFAULT_ACCOUNT_TEXT: &str = "model_provider = \"openai\"\nmodel = \"gpt-5.5\"\nreview_model = \"gpt-5.5\"\nmodel_reasoning_effort = \"xhigh\"\ndisable_response_storage = true\nnetwork_access = \"enabled\"\nwindows_wsl_setup_acknowledged = true\nmodel_context_window = 1000000\nmodel_auto_compact_token_limit = 900000\n";

#[test]
fn default_account_document_holds_the_account_defaults() {
    assert_eq!(default_account_config_document().to_string(), DEFAULT_ACCOUNT_TEXT);
}

#[test]
fn account_mode_config_without_a_file_is_the_default() {
    assert_eq!(account_mode_config(None), DEFAULT_ACCOUNT_TEXT);
    assert_eq!(account_mode_config(Some("this is = = not toml")), DEFAULT_ACCOUNT_TEXT);
}

#[test]
fn account_mode_config_drops_proxy_settings_and_fills_defaults() {
    let raw = "openai_base_url = \"https://proxy.example\"\nmodel = \"m1\"\n\n[model_providers.OpenAI]\nbase_url = \"https://y\"\n";
    let out = account_mode_config(Some(raw));
    assert_eq!(
        out,
        "model = \"m1\"\nmodel_provider = \"openai\"\nreview_model = \"gpt-5.5\"\nmodel_reasoning_effort = \"xhigh\"\ndisable_response_storage = true\nnetwork_access = \"enabled\"\nwindows_wsl_setup_acknowledged = true\nmodel_context_window = 1000000\nmodel_auto_compact_token_limit = 900000\n"
    );
}

#[test]
fn account_mode_config_keeps_other_providers() {
    let raw = "model = \"m1\"\n\n[model_providers.openai]\nbase_url = \"https://a\"\n\n[model_providers.other]\nbase_url = \"https://b\"\n";
    let out = account_mode_config(Some(raw));
    assert!(out.contains("[model_providers.other]"));
    assert!(!out.contains("[model_providers.openai]"));
    assert!(out.ends_with('\n') && !out.ends_with("\n\n"));
}

#[test]
fn proxy_account_config_points_openai_at_the_proxy() {
    assert_eq!(
        proxy_account_config("gpt-5.5", "o3", "high", " https://proxy.example/v1/ "),
        "model_provider = \"openai\"\nmodel = \"gpt-5.5\"\nreview_model = \"o3\"\nmodel_reasoning_effort = \"high\"\ndisable_response_storage = true\nnetwork_access = \"enabled\"\nwindows_wsl_setup_acknowledged = true\nmodel_context_window = 1000000\nmodel_auto_compact_token_limit = 900000\nopenai_base_url = \"https://proxy.example\"\n"
    );
}

#[test]
fn proxy_api_config_declares_the_openai_provider() {
    assert_eq!(
        proxy_api_config("gpt-5.5", "gpt-5.5", "xhigh", "https://api.example.com"),
        "model_provider = \"OpenAI\"\nmodel = \"gpt-5.5\"\nreview_model = \"gpt-5.5\"\nmodel_reasoning_effort = \"xhigh\"\ndisable_response_storage = true\nnetwork_access = \"enabled\"\nwindows_wsl_setup_acknowledged = true\nmodel_context_window = 1000000\nmodel_auto_compact_token_limit = 900000\n\n[model_providers.OpenAI]\nname = \"OpenAI\"\nbase_url = \"https://api.example.com/v1\"\nwire_api = \"responses\"\nrequires_openai_auth = true\n"
    );
}

#[test]
fn base_url_comes_from_the_top_level_then_the_provider_then_any_line() {
    let top = Some("openai_base_url = \"https://top\"\nmodel_provider = \"p\"\n[model_providers.p]\nbase_url = \"https://prov\"\n".to_string());
    assert_eq!(extract_base_url(&top).as_deref(), Some("https://top"));
    let prov = Some("model_provider = \"p\"\n[model_providers.p]\nbase_url = \"https://prov\"\n".to_string());
    assert_eq!(extract_base_url(&prov).as_deref(), Some("https://prov"));
    let other = Some("model_provider = \"q\"\n[model_providers.p]\nbase_url = \"https://prov\"\n".to_string());
    assert_eq!(extract_base_url(&other).as_deref(), Some("https://prov"));
    let broken = Some("base_url = \"https://line\"\n[[[".to_string());
    assert_eq!(extract_base_url(&broken).as_deref(), Some("https://line"));
    let broken_top = Some("openai_base_url = https://unquoted\n[[[".to_string());
    assert_eq!(extract_base_url(&broken_top).as_deref(), Some("https://unquoted"));
    assert_eq!(extract_base_url(&Some("model = \"x\"\n".to_string())), None);
    assert_eq!(extract_base_url(&None), None);
}

#[test]
fn api_auth_json_holds_the_trimmed_key() {
    assert_eq!(api_auth_json("  sk-abc \n"), "{\"OPENAI_API_KEY\":\"sk-abc\"}");
    assert_eq!(api_auth_json("a\"b"), "{\"OPENAI_API_KEY\":\"a\\\"b\"}");
    assert_eq!(
        api_auth_json("k\tx\u{1}\\/\u{7f}é"),
        "{\"OPENAI_API_KEY\":\"k\\tx\\u0001\\\\/\u{7f}é\"}"
    );
}

#[test]
fn account_mode_config_reads_back_with_the_account_values() {
    let raw = "model = \"gpt-4\"\nopenai_base_url = \"https://proxy.example\"\n[model_providers.OpenAI]\nbase_url = \"https://proxy.example/v1\"\n[model_providers.custom]\nbase_url = \"https://c.example\"\n";
    let out = account_mode_config(Some(raw));
    let d: toml_edit::DocumentMut = out.parse().expect("the result parses");
    assert_eq!(d["model"].as_str(), Some("gpt-4"));
    assert_eq!(d["model_provider"].as_str(), Some("openai"));
    assert_eq!(d["review_model"].as_str(), Some("gpt-5.5"));
    assert_eq!(d["model_reasoning_effort"].as_str(), Some("xhigh"));
    assert_eq!(d["model_context_window"].as_integer(), Some(1000000));
    assert_eq!(d["model_auto_compact_token_limit"].as_integer(), Some(900000));
    assert_eq!(d["disable_response_storage"].as_bool(), Some(true));
    assert_eq!(d["windows_wsl_setup_acknowledged"].as_bool(), Some(true));
    assert!(!d.contains_key("openai_base_url"));
    let providers = d["model_providers"].as_table().expect("a providers table");
    assert_eq!(providers.len(), 1);
    assert_eq!(providers["custom"]["base_url"].as_str(), Some("https://c.example"));
    assert!(out.ends_with('\n') && !out.ends_with("\n\n"));
}

#[test]
fn account_mode_config_keeps_values_already_set() {
    let raw = "model_context_window = 5\ndisable_response_storage = false\nnetwork_access = \"restricted\"\nchatgpt_base_url = \"https://x\"\n";
    let out = account_mode_config(Some(raw));
    let d: toml_edit::DocumentMut = out.parse().expect("the result parses");
    assert_eq!(d["model_context_window"].as_integer(), Some(5));
    assert_eq!(d["disable_response_storage"].as_bool(), Some(false));
    assert_eq!(d["network_access"].as_str(), Some("restricted"));
    assert_eq!(d["model_auto_compact_token_limit"].as_integer(), Some(900000));
    assert!(!d.contains_key("chatgpt_base_url"));
    assert_eq!(d["model_provider"].as_str(), Some("openai"));
}
