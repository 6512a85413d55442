use codex_switch::account_ops::{
    account_state, build_proxy_profile, current_files, current_session_size, current_state,
    managed_session_paths, new_imported_profile, proxy_auth_json, summarize, validate_proxy_input,
    CodexPaths, ImportInput, ProxyProfileInput,
};
use codex_switch::codex_config::{account_mode_config, proxy_account_config, proxy_api_config};
use codex_switch::profiles::{CodexSystem, Profile, ProfileKind, Store};

const LOGIN_AUTH: &str = "{\"tokens\":{\"id_token\":\"h.e30.s\",\"account_id\":\"acc\"}}";

fn proxy_input(name: &str, base_url: &str, api_key: &str, system: Option<CodexSystem>) -> ProxyProfileInput {
    ProxyProfileInput {
        name: name.to_string(),
        base_url: base_url.to_string(),
        api_key: api_key.to_string(),
        model: " ".to_string(),
        review_model: String::new(),
        reasoning_effort: "high".to_string(),
        notes: Some("n".to_string()),
        codex_system: system,
    }
}

fn paths() -> CodexPaths {
    CodexPaths {
        codex_dir: "/home/u/.codex".to_string(),
        config_path: "/home/u/.codex/config.toml".to_string(),
        auth_path: "/home/u/.codex/auth.json".to_string(),
    }
}

#[test]
fn importing_the_current_files() {
    let input = ImportInput { name: "  Work  ".to_string(), notes: None, kind: ProfileKind::ChatGptLogin };
    let p = new_imported_profile(&input, Ok((Some("model = \"m\"\n".to_string()), Some(LOGIN_AUTH.to_string()))), "2024-05-01T10:00:00Z")
        .ok()
        .expect("imported");
    assert_eq!(p.name, "Work");
    assert!(p.codex_system == CodexSystem::Account);
    assert_eq!(p.config_toml, Some(account_mode_config(Some("model = \"m\"\n"))));
    assert_eq!(p.auth_json.as_deref(), Some(LOGIN_AUTH));
    assert_eq!(p.notes, "");
    assert_eq!(p.created_at, "2024-05-01T10:00:00Z");
    assert_eq!(p.id.len(), 36);
    assert_ne!(p.id, p.workspace_id);

    let key = ImportInput { name: "k".to_string(), notes: Some("x".to_string()), kind: ProfileKind::Custom };
    let q = new_imported_profile(&key, Ok((Some("raw".to_string()), Some("{\"OPENAI_API_KEY\":\"sk\"}".to_string()))), "t")
        .ok()
        .expect("imported");
    assert!(q.codex_system == CodexSystem::Api);
    assert_eq!(q.config_toml.as_deref(), Some("raw"));

    let blank = ImportInput { name: " ".to_string(), notes: None, kind: ProfileKind::Custom };
    assert_eq!(new_imported_profile(&blank, Err("read failed".to_string()), "t").err().as_deref(), Some("请输入档案名称"));
    assert_eq!(new_imported_profile(&key, Err("read failed".to_string()), "t").err().as_deref(), Some("read failed"));
    assert_eq!(
        new_imported_profile(&key, Ok((None, None)), "t").err().as_deref(),
        Some("当前 Codex 目录下没有可导入的 config.toml 或 auth.json")
    );
}

#[test]
fn proxy_forms_are_checked_and_turned_into_configs() {
    let s = validate_proxy_input(&proxy_input(" P ", "https://p.example/v1", " sk-1 ", None))
        .ok()
        .expect("valid");
    assert_eq!(s.name, "P");
    assert_eq!(s.api_key, "sk-1");
    assert!(s.codex_system == CodexSystem::Api);
    assert_eq!(s.config_toml, proxy_api_config("gpt-5.5", "gpt-5.5", "high", "https://p.example"));

    let a = validate_proxy_input(&proxy_input("P", "https://p.example", "", Some(CodexSystem::Account)))
        .ok()
        .expect("valid");
    assert_eq!(a.config_toml, proxy_account_config("gpt-5.5", "gpt-5.5", "high", "https://p.example"));

    assert_eq!(
        validate_proxy_input(&proxy_input("P", " / ", "sk", None)).err().as_deref(),
        Some("名称和 Base URL 不能为空")
    );
    assert_eq!(
        validate_proxy_input(&proxy_input("P", "https://p", "  ", None)).err().as_deref(),
        Some("API Key 环境需要填写 API Key")
    );
}

#[test]
fn proxy_auth_files() {
    let api = validate_proxy_input(&proxy_input("P", "https://p", "sk-1", None)).ok().unwrap();
    assert_eq!(proxy_auth_json(&api, &None), Ok("{\"OPENAI_API_KEY\":\"sk-1\"}".to_string()));
    let acct = validate_proxy_input(&proxy_input("P", "https://p", "", Some(CodexSystem::Account))).ok().unwrap();
    assert_eq!(proxy_auth_json(&acct, &Some(LOGIN_AUTH.to_string())), Ok(LOGIN_AUTH.to_string()));
    assert_eq!(
        proxy_auth_json(&acct, &None),
        Err("当前没有 ChatGPT 登录授权；请先设备码登录，或填写 API Key。".to_string())
    );
    let acct_key = validate_proxy_input(&proxy_input("P", "https://p", "sk-2", Some(CodexSystem::Account))).ok().unwrap();
    assert_eq!(proxy_auth_json(&acct_key, &None), Ok("{\"OPENAI_API_KEY\":\"sk-2\"}".to_string()));

    let p = build_proxy_profile(api, "{\"OPENAI_API_KEY\":\"sk-1\"} \n\n", &Some("n".to_string()), "now");
    assert_eq!(p.auth_json.as_deref(), Some("{\"OPENAI_API_KEY\":\"sk-1\"}\n"));
    assert!(p.kind == ProfileKind::ProxyApiKey);
    assert_eq!(p.notes, "n");
    assert_eq!(p.updated_at, "now");
}

fn stored(id: &str, config: Option<&str>, auth: Option<&str>) -> Profile {
    Profile {
        id: id.to_string(),
        workspace_id: "w".to_string(),
        name: id.to_string(),
        kind: ProfileKind::Custom,
        notes: String::new(),
        created_at: "c".to_string(),
        updated_at: "u".to_string(),
        config_toml: config.map(str::to_string),
        auth_json: auth.map(str::to_string),
        codex_system: CodexSystem::Account,
    }
}

#[test]
fn summaries_and_state() {
    let p = stored("a", Some("model = \"m\"\nopenai_base_url = \"https://b\"\n"), Some(LOGIN_AUTH));
    let s = summarize(&p, &None, &None, Some("a"));
    assert!(s.is_active && s.has_config && s.has_auth);
    assert_eq!(s.model.as_deref(), Some("m"));
    assert_eq!(s.base_url.as_deref(), Some("https://b"));
    assert_eq!(s.account_id.as_deref(), Some("acc"));
    assert_eq!(s.config_hash.as_ref().map(|h| h.len()), Some(12));
    let by_files = summarize(&p, &p.config_toml, &p.auth_json, None);
    assert!(by_files.is_active);
    assert!(!summarize(&p, &None, &None, Some("b")).is_active);

    let store = Store { active_profile_id: None, profiles: vec![p, stored("b", None, None)] };
    let st = account_state(&store, paths(), &None, &None, 77);
    assert_eq!(st.current.active_profile_id.as_deref(), Some("b"));
    assert_eq!(st.current.session_size, 77);
    assert_eq!(st.current.auth_mode, "未发现 auth.json");
    assert!(!st.profiles[0].is_active && st.profiles[1].is_active);

    let cur = current_state(None, paths(), &Some("model = \"q\"\n".to_string()), &None, 5);
    assert!(cur.config_exists && !cur.auth_exists);
    assert_eq!(cur.model.as_deref(), Some("q"));
    assert_eq!(cur.config_path, "/home/u/.codex/config.toml");
}

#[test]
fn session_size_and_current_files() {
    assert_eq!(current_session_size(&vec![1, 2, 3]), 6);
    assert_eq!(current_session_size(&vec![]), 0);
    assert_eq!(managed_session_paths().len(), 10);
    assert_eq!(managed_session_paths()[4], "state_5.sqlite");
    assert_eq!(
        current_files(Ok(Some("c".to_string())), Ok(None)),
        Ok((Some("c".to_string()), None))
    );
    assert_eq!(current_files(Err("a".to_string()), Err("b".to_string())), Err("a".to_string()));
    assert_eq!(current_files(Ok(None), Err("b".to_string())), Err("b".to_string()));
}
