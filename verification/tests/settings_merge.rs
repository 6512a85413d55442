use codex_switch::settings::{
    merge_settings_for_save, plan_settings_save, AppSettings, CodexOfficialHistoryUnifyMigration,
    CodexProviderTemplateMigration, CodexThirdPartyHistoryProviderBucketMigration,
    LocalMigrations, S3SyncSettings, UnifyFollowUp, WebDavSyncSettings,
};

#[test]
fn save_settings_should_preserve_existing_webdav_when_payload_omits_it() {
    let existing = AppSettings {
        webdav_sync: Some(WebDavSyncSettings {
            base_url: "https://dav.example.com".to_string(),
            username: "alice".to_string(),
            password: "secret".to_string(),
            ..WebDavSyncSettings::default()
        }),
        ..AppSettings::default()
    };

    let incoming = AppSettings::default();
    let merged = merge_settings_for_save(incoming, &existing);

    assert!(merged.webdav_sync.is_some());
    assert_eq!(
        merged.webdav_sync.as_ref().map(|v| v.base_url.as_str()),
        Some("https://dav.example.com")
    );
}

#[test]
fn save_settings_should_keep_incoming_webdav_when_present() {
    let existing = AppSettings {
        webdav_sync: Some(WebDavSyncSettings {
            base_url: "https://dav.old.example.com".to_string(),
            username: "old".to_string(),
            password: "old-pass".to_string(),
            ..WebDavSyncSettings::default()
        }),
        ..AppSettings::default()
    };

    let incoming = AppSettings {
        webdav_sync: Some(WebDavSyncSettings {
            base_url: "https://dav.new.example.com".to_string(),
            username: "new".to_string(),
            password: "new-pass".to_string(),
            ..WebDavSyncSettings::default()
        }),
        ..AppSettings::default()
    };

    let merged = merge_settings_for_save(incoming, &existing);

    assert_eq!(
        merged.webdav_sync.as_ref().map(|v| v.base_url.as_str()),
        Some("https://dav.new.example.com")
    );
}

#[test]
fn save_settings_should_preserve_password_when_incoming_has_empty_password() {
    let existing = AppSettings {
        webdav_sync: Some(WebDavSyncSettings {
            base_url: "https://dav.example.com".to_string(),
            username: "alice".to_string(),
            password: "secret".to_string(),
            ..WebDavSyncSettings::default()
        }),
        ..AppSettings::default()
    };

    let incoming = AppSettings {
        webdav_sync: Some(WebDavSyncSettings {
            base_url: "https://dav.example.com".to_string(),
            username: "alice".to_string(),
            password: "".to_string(),
            ..WebDavSyncSettings::default()
        }),
        ..AppSettings::default()
    };

    let merged = merge_settings_for_save(incoming, &existing);

    assert_eq!(
        merged.webdav_sync.as_ref().map(|v| v.password.as_str()),
        Some("secret"),
        "empty password from frontend must not overwrite existing password"
    );
}

#[test]
fn save_settings_should_handle_both_empty_passwords() {
    let existing = AppSettings {
        webdav_sync: Some(WebDavSyncSettings {
            base_url: "https://dav.example.com".to_string(),
            username: "alice".to_string(),
            password: "".to_string(),
            ..WebDavSyncSettings::default()
        }),
        ..AppSettings::default()
    };

    let incoming = AppSettings {
        webdav_sync: Some(WebDavSyncSettings {
            base_url: "https://dav.example.com".to_string(),
            username: "alice".to_string(),
            password: "".to_string(),
            ..WebDavSyncSettings::default()
        }),
        ..AppSettings::default()
    };

    let merged = merge_settings_for_save(incoming, &existing);

    assert_eq!(
        merged.webdav_sync.as_ref().map(|v| v.password.as_str()),
        Some("")
    );
}

#[test]
fn save_settings_should_preserve_existing_s3_when_payload_omits_it() {
    let existing = AppSettings {
        s3_sync: Some(S3SyncSettings {
            bucket: "bucket".to_string(),
            access_key_id: "ak".to_string(),
            secret_access_key: "secret".to_string(),
            ..S3SyncSettings::default()
        }),
        ..AppSettings::default()
    };

    let incoming = AppSettings::default();
    let merged = merge_settings_for_save(incoming, &existing);

    assert!(merged.s3_sync.is_some());
    assert_eq!(
        merged
            .s3_sync
            .as_ref()
            .map(|v| v.secret_access_key.as_str()),
        Some("secret")
    );
}

#[test]
fn save_settings_should_preserve_s3_secret_when_incoming_has_empty_secret() {
    let existing = AppSettings {
        s3_sync: Some(S3SyncSettings {
            bucket: "bucket".to_string(),
            access_key_id: "ak".to_string(),
            secret_access_key: "secret".to_string(),
            ..S3SyncSettings::default()
        }),
        ..AppSettings::default()
    };

    let incoming = AppSettings {
        s3_sync: Some(S3SyncSettings {
            bucket: "bucket".to_string(),
            access_key_id: "ak".to_string(),
            secret_access_key: "".to_string(),
            ..S3SyncSettings::default()
        }),
        ..AppSettings::default()
    };

    let merged = merge_settings_for_save(incoming, &existing);

    assert_eq!(
        merged
            .s3_sync
            .as_ref()
            .map(|v| v.secret_access_key.as_str()),
        Some("secret")
    );
}

#[test]
fn save_settings_should_preserve_local_migrations_when_payload_omits_it() {
    let existing = AppSettings {
        local_migrations: Some(LocalMigrations {
            codex_third_party_history_provider_bucket_v1: Some(
                CodexThirdPartyHistoryProviderBucketMigration {
                    completed_at: "2026-05-20T00:00:00Z".to_string(),
                    target_provider_id: "custom".to_string(),
                    source_provider_ids: vec!["rightcode".to_string()],
                    migrated_jsonl_files: 2,
                    migrated_state_rows: 3,
                    scanned_history_files: true,
                },
            ),
            codex_provider_template_v1: Some(CodexProviderTemplateMigration {
                completed_at: "2026-05-20T00:01:00Z".to_string(),
                migrated_provider_ids: vec!["legacy".to_string()],
            }),
            codex_official_history_unify_v1: Some(CodexOfficialHistoryUnifyMigration {
                completed_at: "2026-06-12T00:00:00Z".to_string(),
                target_provider_id: "custom".to_string(),
                source_provider_ids: Vec::new(),
                migrated_jsonl_files: 5,
                migrated_state_rows: 7,
                codex_config_dir: None,
            }),
        }),
        ..AppSettings::default()
    };

    let incoming = AppSettings::default();
    let merged = merge_settings_for_save(incoming, &existing);

    let migration = merged
        .local_migrations
        .as_ref()
        .and_then(|migrations| {
            migrations
                .codex_third_party_history_provider_bucket_v1
                .as_ref()
        })
        .expect("local migration marker should be preserved");
    assert_eq!(migration.target_provider_id, "custom");
    assert_eq!(migration.migrated_jsonl_files, 2);
    assert_eq!(migration.migrated_state_rows, 3);

    let template_migration = merged
        .local_migrations
        .as_ref()
        .and_then(|migrations| migrations.codex_provider_template_v1.as_ref())
        .expect("template migration marker should be preserved");
    assert_eq!(
        template_migration.migrated_provider_ids,
        vec!["legacy".to_string()]
    );

    let unify_migration = merged
        .local_migrations
        .as_ref()
        .and_then(|migrations| migrations.codex_official_history_unify_v1.as_ref())
        .expect("official unify migration marker should be preserved");
    assert_eq!(unify_migration.migrated_jsonl_files, 5);
    assert_eq!(unify_migration.migrated_state_rows, 7);
}

#[test]
fn save_settings_should_keep_backend_migration_markers_over_incoming() {
    let existing = AppSettings {
        local_migrations: Some(LocalMigrations {
            codex_third_party_history_provider_bucket_v1: None,
            codex_provider_template_v1: None,
            codex_official_history_unify_v1: Some(CodexOfficialHistoryUnifyMigration {
                completed_at: "2026-06-12T00:00:00Z".to_string(),
                target_provider_id: "custom".to_string(),
                source_provider_ids: Vec::new(),
                migrated_jsonl_files: 1,
                migrated_state_rows: 2,
                codex_config_dir: None,
            }),
        }),
        ..AppSettings::default()
    };

    let incoming = AppSettings {
        local_migrations: Some(LocalMigrations::default()),
        ..AppSettings::default()
    };
    let merged = merge_settings_for_save(incoming, &existing);

    assert!(merged
        .local_migrations
        .as_ref()
        .and_then(|migrations| migrations.codex_official_history_unify_v1.as_ref())
        .is_some());
}

#[test]
fn save_settings_should_ignore_stale_incoming_migration_markers() {
    let existing = AppSettings::default();

    let incoming = AppSettings {
        local_migrations: Some(LocalMigrations {
            codex_official_history_unify_v1: Some(CodexOfficialHistoryUnifyMigration {
                completed_at: "2026-06-12T00:00:00Z".to_string(),
                target_provider_id: "custom".to_string(),
                source_provider_ids: Vec::new(),
                migrated_jsonl_files: 1,
                migrated_state_rows: 2,
                codex_config_dir: None,
            }),
            ..LocalMigrations::default()
        }),
        ..AppSettings::default()
    };
    let merged = merge_settings_for_save(incoming, &existing);

    assert!(merged.local_migrations.is_none());
}

#[test]
fn merging_twice_with_the_same_stored_settings_changes_nothing() {
    let existing = AppSettings {
        webdav_sync: Some(WebDavSyncSettings {
            base_url: "https://dav.example.com".to_string(),
            username: "alice".to_string(),
            password: "secret".to_string(),
        }),
        ..AppSettings::default()
    };
    let incoming = AppSettings {
        webdav_sync: Some(WebDavSyncSettings {
            base_url: "https://dav.new.example.com".to_string(),
            username: "bob".to_string(),
            password: "".to_string(),
        }),
        unify_codex_session_history: true,
        ..AppSettings::default()
    };
    let once = merge_settings_for_save(incoming, &existing);
    let once_webdav = once.webdav_sync.as_ref().map(|w| {
        (w.base_url.clone(), w.username.clone(), w.password.clone())
    });
    let twice = merge_settings_for_save(once, &existing);
    let twice_webdav = twice.webdav_sync.as_ref().map(|w| {
        (w.base_url.clone(), w.username.clone(), w.password.clone())
    });
    assert_eq!(once_webdav, twice_webdav);
    assert_eq!(
        twice_webdav,
        Some((
            "https://dav.new.example.com".to_string(),
            "bob".to_string(),
            "secret".to_string()
        ))
    );
    assert!(twice.unify_codex_session_history);
}

#[test]
fn turning_unified_history_on_migrates_and_off_clears_markers() {
    let off = AppSettings::default();
    let on = AppSettings {
        unify_codex_session_history: true,
        ..AppSettings::default()
    };
    let plan = plan_settings_save(
        AppSettings {
            unify_codex_session_history: true,
            ..AppSettings::default()
        },
        &off,
    );
    assert!(matches!(plan.follow_up, UnifyFollowUp::RewriteLiveThenMigrate));
    let plan = plan_settings_save(AppSettings::default(), &on);
    assert!(matches!(plan.follow_up, UnifyFollowUp::RewriteLiveThenClearMarkers));
    let plan = plan_settings_save(AppSettings::default(), &off);
    assert!(matches!(plan.follow_up, UnifyFollowUp::Nothing));
}
