use codex_switch::settings::{plan_settings_save, validate_cache_ttl, AppSettings, UnifyFollowUp};

#[test]
fn only_known_cache_lifetimes_are_accepted() {
    assert_eq!(validate_cache_ttl("5m"), Ok(()));
    assert_eq!(validate_cache_ttl("1h"), Ok(()));
    assert_eq!(
        validate_cache_ttl("10m"),
        Err("Invalid cache_ttl value: '10m'. Allowed values: '5m', '1h'".to_string())
    );
    assert_eq!(
        validate_cache_ttl(""),
        Err("Invalid cache_ttl value: ''. Allowed values: '5m', '1h'".to_string())
    );
}

#[test]
fn toggling_unified_history_plans_the_follow_up() {
    let off = AppSettings::default();
    let on = AppSettings { unify_codex_session_history: true, ..AppSettings::default() };
    assert!(matches!(plan_settings_save(on, &off).follow_up, UnifyFollowUp::RewriteLiveThenMigrate));
    let on = AppSettings { unify_codex_session_history: true, ..AppSettings::default() };
    assert!(matches!(plan_settings_save(AppSettings::default(), &on).follow_up, UnifyFollowUp::RewriteLiveThenClearMarkers));
    assert!(matches!(plan_settings_save(AppSettings::default(), &off).follow_up, UnifyFollowUp::Nothing));
}

use codex_switch::settings::{merge_settings_for_save, S3SyncSettings, WebDavSyncSettings};

fn stored_settings() -> AppSettings {
    AppSettings {
        webdav_sync: Some(WebDavSyncSettings {
            base_url: "https://dav".to_string(),
            username: "u".to_string(),
            password: "p".to_string(),
        }),
        s3_sync: Some(S3SyncSettings {
            bucket: "b".to_string(),
            access_key_id: "k".to_string(),
            secret_access_key: "s".to_string(),
        }),
        local_migrations: None,
        unify_codex_session_history: true,
    }
}

fn summary(s: &AppSettings) -> (Option<(String, String, String)>, Option<(String, String, String)>, bool) {
    (
        s.webdav_sync.as_ref().map(|w| (w.base_url.clone(), w.username.clone(), w.password.clone())),
        s.s3_sync.as_ref().map(|x| (x.bucket.clone(), x.access_key_id.clone(), x.secret_access_key.clone())),
        s.unify_codex_session_history,
    )
}

#[test]
fn saving_the_stored_settings_changes_nothing() {
    let existing = stored_settings();
    let merged = merge_settings_for_save(stored_settings(), &existing);
    assert_eq!(summary(&merged), summary(&existing));
}

#[test]
fn saving_twice_is_saving_once() {
    let existing = stored_settings();
    let incoming = AppSettings {
        webdav_sync: Some(WebDavSyncSettings {
            base_url: "https://dav2".to_string(),
            username: "v".to_string(),
            password: String::new(),
        }),
        s3_sync: None,
        local_migrations: None,
        unify_codex_session_history: false,
    };
    let once = merge_settings_for_save(incoming, &existing);
    let again = {
        let copy = AppSettings {
            webdav_sync: once.webdav_sync.as_ref().map(WebDavSyncSettings::copy),
            s3_sync: once.s3_sync.as_ref().map(S3SyncSettings::copy),
            local_migrations: None,
            unify_codex_session_history: once.unify_codex_session_history,
        };
        merge_settings_for_save(copy, &existing)
    };
    assert_eq!(summary(&once), summary(&again));
    assert_eq!(
        summary(&once).0,
        Some(("https://dav2".to_string(), "v".to_string(), "p".to_string()))
    );
}

use codex_switch::settings::{save_settings, SaveAction};

#[test]
fn a_save_that_keeps_the_switch_only_stores() {
    let (mut flow, action) = save_settings(AppSettings::default(), stored_settings_off());
    match action {
        SaveAction::Store(m) => assert_eq!(summary(&m).0, summary(&stored_settings_off()).0),
        _ => panic!("expected a store"),
    }
    assert!(matches!(flow.step(Ok(())), SaveAction::Finish(Ok(true))));
}

fn stored_settings_off() -> AppSettings {
    AppSettings { unify_codex_session_history: false, ..stored_settings() }
}

#[test]
fn turning_the_switch_on_rewrites_live_then_migrates() {
    let incoming = AppSettings { unify_codex_session_history: true, ..AppSettings::default() };
    let (mut flow, _) = save_settings(incoming, stored_settings_off());
    assert!(matches!(flow.step(Ok(())), SaveAction::RewriteLive));
    assert!(matches!(flow.step(Ok(())), SaveAction::StartMigration));
    assert!(matches!(flow.step(Ok(())), SaveAction::Finish(Ok(true))));
}

#[test]
fn a_failed_live_rewrite_restores_the_old_settings() {
    let (mut flow, _) = save_settings(AppSettings::default(), stored_settings());
    assert!(matches!(flow.step(Ok(())), SaveAction::RewriteLive));
    match flow.step(Err("no provider".to_string())) {
        SaveAction::Rollback(old) => assert_eq!(summary(&old), summary(&stored_settings())),
        _ => panic!("expected a rollback"),
    }
    match flow.step(Err("rollback failed too".to_string())) {
        SaveAction::Finish(Err(e)) => {
            assert_eq!(e, "统一 Codex 会话历史开关未生效（live 配置重写失败）: no provider")
        }
        _ => panic!("expected the failure"),
    }
}

#[test]
fn turning_the_switch_off_clears_the_markers_and_a_failed_store_stops() {
    let (mut flow, _) = save_settings(AppSettings::default(), stored_settings());
    flow.step(Ok(()));
    assert!(matches!(flow.step(Ok(())), SaveAction::ClearMarkers));
    assert!(matches!(flow.step(Ok(())), SaveAction::Finish(Ok(true))));
    let (mut flow, _) = save_settings(AppSettings::default(), stored_settings());
    match flow.step(Err("disk full".to_string())) {
        SaveAction::Finish(Err(e)) => assert_eq!(e, "disk full"),
        _ => panic!("expected the failure"),
    }
}
