use codex_switch::codex_config::proxy_api_config;
use codex_switch::profiles::{
    active_profile, delete_profile, ensure_api_profile_files, find_profile_index, mark_active,
    normalize_profile, normalize_store, openable_codex_file, switch_target, CodexSystem, Profile,
    ProfileKind, Store,
};

fn profile(id: &str, system: CodexSystem, config: Option<&str>, auth: Option<&str>) -> Profile {
    Profile {
        id: id.to_string(),
        workspace_id: format!("ws-{id}"),
        name: format!("name {id}"),
        kind: ProfileKind::ProxyApiKey,
        notes: String::new(),
        created_at: "2024-01-01T00:00:00Z".to_string(),
        updated_at: "2024-01-01T00:00:00Z".to_string(),
        config_toml: config.map(str::to_string),
        auth_json: auth.map(str::to_string),
        codex_system: system,
    }
}

const API_AUTH: &str = "{\"OPENAI_API_KEY\":\"sk-1\"}";

#[test]
fn api_profile_config_is_rewritten_to_the_canonical_form() {
    let mut p = profile(
        "a",
        CodexSystem::Api,
        Some("model = \"m\"\nopenai_base_url = \"https://api.example.com/v1/\"\n"),
        Some(API_AUTH),
    );
    assert_eq!(ensure_api_profile_files(&mut p), Ok(()));
    assert_eq!(
        p.config_toml.as_deref(),
        Some(proxy_api_config("m", "m", "xhigh", "https://api.example.com").as_str())
    );
}

#[test]
fn api_profile_problems_are_reported() {
    let mut p = profile("a", CodexSystem::Api, Some("model = \"m\"\n"), Some("{}"));
    assert_eq!(
        ensure_api_profile_files(&mut p),
        Err("API Key 档案「name a」没有写入 OPENAI_API_KEY，请重新填写 Key 后创建。".to_string())
    );
    let mut p = profile("a", CodexSystem::Api, None, Some(API_AUTH));
    assert_eq!(
        ensure_api_profile_files(&mut p),
        Err("API Key 档案「name a」缺少 config.toml，请重新创建。".to_string())
    );
    let mut p = profile("a", CodexSystem::Api, Some("model = \"m\"\n"), Some(API_AUTH));
    assert_eq!(
        ensure_api_profile_files(&mut p),
        Err("API Key 档案「name a」缺少 Base URL，请重新创建。".to_string())
    );
    let mut p = profile("a", CodexSystem::Account, None, None);
    assert_eq!(ensure_api_profile_files(&mut p), Ok(()));
    assert_eq!(p.config_toml, None);
}

#[test]
fn normalising_fills_workspace_ids_and_migrates_key_only_proxy_profiles() {
    let mut p = profile("a", CodexSystem::Account, Some("openai_base_url = \"https://p\"\n"), Some(API_AUTH));
    p.workspace_id = String::new();
    assert_eq!(normalize_profile(&mut p), Ok(true));
    assert_eq!(p.workspace_id.len(), 36);
    assert!(p.codex_system == CodexSystem::Api);
    assert_eq!(
        p.config_toml.as_deref(),
        Some(proxy_api_config("gpt-5.5", "gpt-5.5", "xhigh", "https://p").as_str())
    );
    assert_eq!(normalize_profile(&mut p), Ok(false));

    let mut q = profile("b", CodexSystem::Account, Some("model = \"x\"\n"), Some("{\"tokens\":{\"id_token\":\"t\"}}"));
    assert_eq!(normalize_profile(&mut q), Ok(false));
    assert!(q.codex_system == CodexSystem::Account);
    assert_eq!(q.config_toml.as_deref(), Some("model = \"x\"\n"));
}

#[test]
fn normalising_a_store_stops_at_a_broken_profile() {
    let mut store = Store {
        active_profile_id: None,
        profiles: vec![
            profile("a", CodexSystem::Account, None, None),
            profile("b", CodexSystem::Api, None, Some(API_AUTH)),
        ],
    };
    assert_eq!(
        normalize_store(&mut store),
        Err("API Key 档案「name b」缺少 config.toml，请重新创建。".to_string())
    );
    let mut ok = Store { active_profile_id: None, profiles: vec![profile("a", CodexSystem::Account, None, None)] };
    assert_eq!(normalize_store(&mut ok), Ok(false));
}

#[test]
fn switching_and_deleting_profiles() {
    let mut store = Store {
        active_profile_id: None,
        profiles: vec![
            profile("a", CodexSystem::Account, Some("x = 1\n"), None),
            profile("b", CodexSystem::Account, None, Some("{}")),
        ],
    };
    assert_eq!(find_profile_index(&store, "b"), Some(1));
    assert_eq!(switch_target(&store, "zzz"), Err("找不到指定档案".to_string()));
    let i = switch_target(&store, "b").expect("found");
    mark_active(&mut store, i);
    assert_eq!(store.active_profile_id.as_deref(), Some("b"));
    assert_eq!(active_profile(&store, &None, &None).map(|p| p.id.as_str()), Some("b"));

    assert_eq!(delete_profile(&mut store, "zzz"), Err("找不到指定档案".to_string()));
    assert_eq!(delete_profile(&mut store, "b"), Ok(()));
    assert_eq!(store.active_profile_id, None);
    assert_eq!(store.profiles.len(), 1);
    assert_eq!(store.profiles[0].id, "a");
}

#[test]
fn the_active_profile_is_found_by_id_then_by_file_fingerprints() {
    let store = Store {
        active_profile_id: Some("gone".to_string()),
        profiles: vec![
            profile("a", CodexSystem::Account, Some("x = 1\n"), None),
            profile("b", CodexSystem::Account, Some("y = 2\n"), Some("{}")),
        ],
    };
    let found = active_profile(&store, &Some("y = 2\n".to_string()), &Some("{}".to_string()));
    assert_eq!(found.map(|p| p.id.as_str()), Some("b"));
    assert!(active_profile(&store, &Some("z".to_string()), &None).is_none());
}

#[test]
fn only_the_two_codex_files_can_be_opened() {
    assert_eq!(openable_codex_file("config.toml"), Ok("config.toml".to_string()));
    assert_eq!(openable_codex_file("auth.json"), Ok("auth.json".to_string()));
    assert_eq!(
        openable_codex_file("../secrets"),
        Err("只能打开 Codex 的 config.toml 或 auth.json".to_string())
    );
}

#[test]
fn normalising_a_store_names_the_first_broken_profile() {
    let mut store = Store {
        active_profile_id: None,
        profiles: vec![
            profile("a", CodexSystem::Account, None, None),
            profile("b", CodexSystem::Api, None, Some(API_AUTH)),
            profile("c", CodexSystem::Api, None, Some(API_AUTH)),
        ],
    };
    assert_eq!(
        normalize_store(&mut store),
        Err("API Key 档案「name b」缺少 config.toml，请重新创建。".to_string())
    );
}

#[test]
fn a_filled_in_workspace_id_is_a_version_4_uuid() {
    let mut p = profile("a", CodexSystem::Account, None, None);
    p.workspace_id = String::new();
    assert_eq!(normalize_profile(&mut p), Ok(true));
    let id: Vec<char> = p.workspace_id.chars().collect();
    assert_eq!(id.len(), 36);
    for (i, c) in id.iter().enumerate() {
        if i == 8 || i == 13 || i == 18 || i == 23 {
            assert_eq!(*c, '-');
        } else {
            assert!(c.is_ascii_digit() || ('a'..='f').contains(c));
        }
    }
    assert_eq!(id[14], '4');
    assert!(matches!(id[19], '8' | '9' | 'a' | 'b'));
}
