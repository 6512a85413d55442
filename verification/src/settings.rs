//! Application settings as the save command merges them: sync credentials
//! that the frontend never sees are kept, and migration markers stay owned
//! by the backend.
use vstd::prelude::*;
use crate::text::strings_view;

verus! {

/// WebDAV sync settings.
pub struct WebDavSyncSettings {
    pub base_url: String,
    pub username: String,
    pub password: String,
}

/// S3 sync settings.
pub struct S3SyncSettings {
    pub bucket: String,
    pub access_key_id: String,
    pub secret_access_key: String,
}

/// Marker of the migration that moved third-party history into one provider bucket.
pub struct CodexThirdPartyHistoryProviderBucketMigration {
    pub completed_at: String,
    pub target_provider_id: String,
    pub source_provider_ids: Vec<String>,
    pub migrated_jsonl_files: usize,
    pub migrated_state_rows: usize,
    pub scanned_history_files: bool,
}

/// Marker of the migration that rewrote provider templates.
pub struct CodexProviderTemplateMigration {
    pub completed_at: String,
    pub migrated_provider_ids: Vec<String>,
}

/// Marker of the migration that unified official Codex history.
pub struct CodexOfficialHistoryUnifyMigration {
    pub completed_at: String,
    pub target_provider_id: String,
    pub source_provider_ids: Vec<String>,
    pub migrated_jsonl_files: usize,
    pub migrated_state_rows: usize,
    pub codex_config_dir: Option<String>,
}

/// Completion markers of the local data migrations.
pub struct LocalMigrations {
    pub codex_third_party_history_provider_bucket_v1: Option<
        CodexThirdPartyHistoryProviderBucketMigration,
    >,
    pub codex_provider_template_v1: Option<CodexProviderTemplateMigration>,
    pub codex_official_history_unify_v1: Option<CodexOfficialHistoryUnifyMigration>,
}

/// The settings that the save command reads and merges.
pub struct AppSettings {
    pub webdav_sync: Option<WebDavSyncSettings>,
    pub s3_sync: Option<S3SyncSettings>,
    pub local_migrations: Option<LocalMigrations>,
    pub unify_codex_session_history: bool,
}

pub struct WebDavView {
    pub base_url: Seq<char>,
    pub username: Seq<char>,
    pub password: Seq<char>,
}

pub struct S3View {
    pub bucket: Seq<char>,
    pub access_key_id: Seq<char>,
    pub secret_access_key: Seq<char>,
}

pub struct BucketMigrationView {
    pub completed_at: Seq<char>,
    pub target_provider_id: Seq<char>,
    pub source_provider_ids: Seq<Seq<char>>,
    pub migrated_jsonl_files: usize,
    pub migrated_state_rows: usize,
    pub scanned_history_files: bool,
}

pub struct TemplateMigrationView {
    pub completed_at: Seq<char>,
    pub migrated_provider_ids: Seq<Seq<char>>,
}

pub struct UnifyMigrationView {
    pub completed_at: Seq<char>,
    pub target_provider_id: Seq<char>,
    pub source_provider_ids: Seq<Seq<char>>,
    pub migrated_jsonl_files: usize,
    pub migrated_state_rows: usize,
    pub codex_config_dir: Option<Seq<char>>,
}

pub struct MigrationsView {
    pub bucket: Option<BucketMigrationView>,
    pub template: Option<TemplateMigrationView>,
    pub unify: Option<UnifyMigrationView>,
}

pub struct SettingsView {
    pub webdav_sync: Option<WebDavView>,
    pub s3_sync: Option<S3View>,
    pub local_migrations: Option<MigrationsView>,
    pub unify_codex_session_history: bool,
}

impl View for WebDavSyncSettings {
    type V = WebDavView;

    open spec fn view(&self) -> WebDavView {
        WebDavView {
            base_url: self.base_url@,
            username: self.username@,
            password: self.password@,
        }
    }
}

impl View for S3SyncSettings {
    type V = S3View;

    open spec fn view(&self) -> S3View {
        S3View {
            bucket: self.bucket@,
            access_key_id: self.access_key_id@,
            secret_access_key: self.secret_access_key@,
        }
    }
}

impl View for CodexThirdPartyHistoryProviderBucketMigration {
    type V = BucketMigrationView;

    open spec fn view(&self) -> BucketMigrationView {
        BucketMigrationView {
            completed_at: self.completed_at@,
            target_provider_id: self.target_provider_id@,
            source_provider_ids: strings_view(self.source_provider_ids@),
            migrated_jsonl_files: self.migrated_jsonl_files,
            migrated_state_rows: self.migrated_state_rows,
            scanned_history_files: self.scanned_history_files,
        }
    }
}

impl View for CodexProviderTemplateMigration {
    type V = TemplateMigrationView;

    open spec fn view(&self) -> TemplateMigrationView {
        TemplateMigrationView {
            completed_at: self.completed_at@,
            migrated_provider_ids: strings_view(self.migrated_provider_ids@),
        }
    }
}

impl View for CodexOfficialHistoryUnifyMigration {
    type V = UnifyMigrationView;

    open spec fn view(&self) -> UnifyMigrationView {
        UnifyMigrationView {
            completed_at: self.completed_at@,
            target_provider_id: self.target_provider_id@,
            source_provider_ids: strings_view(self.source_provider_ids@),
            migrated_jsonl_files: self.migrated_jsonl_files,
            migrated_state_rows: self.migrated_state_rows,
            codex_config_dir: match self.codex_config_dir {
                Some(d) => Some(d@),
                None => None,
            },
        }
    }
}

pub open spec fn opt_migration_view<T: View>(o: Option<T>) -> Option<T::V> {
    match o {
        Some(m) => Some(m@),
        None => None,
    }
}

impl View for LocalMigrations {
    type V = MigrationsView;

    open spec fn view(&self) -> MigrationsView {
        MigrationsView {
            bucket: opt_migration_view(self.codex_third_party_history_provider_bucket_v1),
            template: opt_migration_view(self.codex_provider_template_v1),
            unify: opt_migration_view(self.codex_official_history_unify_v1),
        }
    }
}

impl View for AppSettings {
    type V = SettingsView;

    open spec fn view(&self) -> SettingsView {
        SettingsView {
            webdav_sync: opt_migration_view(self.webdav_sync),
            s3_sync: opt_migration_view(self.s3_sync),
            local_migrations: opt_migration_view(self.local_migrations),
            unify_codex_session_history: self.unify_codex_session_history,
        }
    }
}

/// A copy of a list of strings.
pub fn copy_strings(v: &Vec<String>) -> (r: Vec<String>)
    ensures
        strings_view(r@) == strings_view(v@),
{
    let mut r: Vec<String> = Vec::new();
    let mut i: usize = 0;
    while i < v.len()
        invariant
            i <= v.len(),
            strings_view(r@) == strings_view(v@.take(i as int)),
        decreases v.len() - i,
    {
        let c = v[i].clone();
        assert(c == v@[i as int]);
        let ghost prev = r@;
        r.push(c);
        assert(strings_view(r@) =~= strings_view(prev).push(c@));
        assert(v@.take(i + 1) =~= v@.take(i as int).push(v@[i as int]));
        assert(strings_view(v@.take(i + 1)) =~= strings_view(v@.take(i as int)).push(c@));
        i = i + 1;
    }
    assert(v@.take(v.len() as int) =~= v@);
    r
}

pub fn copy_opt_string(o: &Option<String>) -> (r: Option<String>)
    ensures
        r == *o,
{
    match o {
        Some(s) => Some(s.clone()),
        None => None,
    }
}

impl WebDavSyncSettings {
    pub fn copy(&self) -> (r: Self)
        ensures
            r@ == self@,
    {
        WebDavSyncSettings {
            base_url: self.base_url.clone(),
            username: self.username.clone(),
            password: self.password.clone(),
        }
    }

    /// The settings with every field empty.
    pub fn empty() -> (r: Self)
        ensures
            r@.base_url.len() == 0 && r@.username.len() == 0 && r@.password.len() == 0,
    {
        WebDavSyncSettings { base_url: String::new(), username: String::new(), password: String::new() }
    }
}

impl S3SyncSettings {
    pub fn copy(&self) -> (r: Self)
        ensures
            r@ == self@,
    {
        S3SyncSettings {
            bucket: self.bucket.clone(),
            access_key_id: self.access_key_id.clone(),
            secret_access_key: self.secret_access_key.clone(),
        }
    }

    /// The settings with every field empty.
    pub fn empty() -> (r: Self)
        ensures
            r@.bucket.len() == 0 && r@.access_key_id.len() == 0 && r@.secret_access_key.len() == 0,
    {
        S3SyncSettings {
            bucket: String::new(),
            access_key_id: String::new(),
            secret_access_key: String::new(),
        }
    }
}

impl CodexThirdPartyHistoryProviderBucketMigration {
    pub fn copy(&self) -> (r: Self)
        ensures
            r@ == self@,
    {
        CodexThirdPartyHistoryProviderBucketMigration {
            completed_at: self.completed_at.clone(),
            target_provider_id: self.target_provider_id.clone(),
            source_provider_ids: copy_strings(&self.source_provider_ids),
            migrated_jsonl_files: self.migrated_jsonl_files,
            migrated_state_rows: self.migrated_state_rows,
            scanned_history_files: self.scanned_history_files,
        }
    }
}

impl CodexProviderTemplateMigration {
    pub fn copy(&self) -> (r: Self)
        ensures
            r@ == self@,
    {
        CodexProviderTemplateMigration {
            completed_at: self.completed_at.clone(),
            migrated_provider_ids: copy_strings(&self.migrated_provider_ids),
        }
    }
}

impl CodexOfficialHistoryUnifyMigration {
    pub fn copy(&self) -> (r: Self)
        ensures
            r@ == self@,
    {
        let dir = copy_opt_string(&self.codex_config_dir);
        CodexOfficialHistoryUnifyMigration {
            completed_at: self.completed_at.clone(),
            target_provider_id: self.target_provider_id.clone(),
            source_provider_ids: copy_strings(&self.source_provider_ids),
            migrated_jsonl_files: self.migrated_jsonl_files,
            migrated_state_rows: self.migrated_state_rows,
            codex_config_dir: dir,
        }
    }
}

impl LocalMigrations {
    pub fn copy(&self) -> (r: Self)
        ensures
            r@ == self@,
    {
        LocalMigrations {
            codex_third_party_history_provider_bucket_v1: match &self.codex_third_party_history_provider_bucket_v1 {
                Some(m) => Some(m.copy()),
                None => None,
            },
            codex_provider_template_v1: match &self.codex_provider_template_v1 {
                Some(m) => Some(m.copy()),
                None => None,
            },
            codex_official_history_unify_v1: match &self.codex_official_history_unify_v1 {
                Some(m) => Some(m.copy()),
                None => None,
            },
        }
    }

    /// No migration marked complete.
    pub fn none() -> (r: Self)
        ensures
            r@ == (MigrationsView { bucket: None, template: None, unify: None }),
    {
        LocalMigrations {
            codex_third_party_history_provider_bucket_v1: None,
            codex_provider_template_v1: None,
            codex_official_history_unify_v1: None,
        }
    }
}

impl AppSettings {
    pub fn copy(&self) -> (r: Self)
        ensures
            r@ == self@,
    {
        AppSettings {
            webdav_sync: match &self.webdav_sync {
                Some(w) => Some(w.copy()),
                None => None,
            },
            s3_sync: match &self.s3_sync {
                Some(x) => Some(x.copy()),
                None => None,
            },
            local_migrations: match &self.local_migrations {
                Some(m) => Some(m.copy()),
                None => None,
            },
            unify_codex_session_history: self.unify_codex_session_history,
        }
    }

    /// Settings with no sync configured, no migration marked and unified
    /// history off.
    pub fn empty() -> (r: Self)
        ensures
            r@ == (SettingsView {
                webdav_sync: None,
                s3_sync: None,
                local_migrations: None,
                unify_codex_session_history: false,
            }),
    {
        AppSettings {
            webdav_sync: None,
            s3_sync: None,
            local_migrations: None,
            unify_codex_session_history: false,
        }
    }
}

impl Default for WebDavSyncSettings {
    fn default() -> (r: Self)
        ensures
            r@.base_url.len() == 0 && r@.username.len() == 0 && r@.password.len() == 0,
    {
        WebDavSyncSettings::empty()
    }
}

impl Default for S3SyncSettings {
    fn default() -> (r: Self)
        ensures
            r@.bucket.len() == 0 && r@.access_key_id.len() == 0 && r@.secret_access_key.len() == 0,
    {
        S3SyncSettings::empty()
    }
}

impl Default for LocalMigrations {
    fn default() -> (r: Self)
        ensures
            r@ == (MigrationsView { bucket: None, template: None, unify: None }),
    {
        LocalMigrations::none()
    }
}

impl Default for AppSettings {
    fn default() -> (r: Self)
        ensures
            r@ == (SettingsView {
                webdav_sync: None,
                s3_sync: None,
                local_migrations: None,
                unify_codex_session_history: false,
            }),
    {
        AppSettings::empty()
    }
}

/// The WebDAV settings to store: the existing ones when none came in; the
/// incoming ones with the existing password when the incoming password is
/// empty and the existing one is not; otherwise the incoming ones.
pub open spec fn merged_webdav(incoming: Option<WebDavView>, existing: Option<WebDavView>) -> Option<
    WebDavView,
> {
    match incoming {
        None => existing,
        Some(i) => match existing {
            Some(e) => if i.password.len() == 0 && e.password.len() != 0 {
                Some(WebDavView { password: e.password, ..i })
            } else {
                Some(i)
            },
            None => Some(i),
        },
    }
}

/// The S3 settings to store, merged as the WebDAV ones with the secret
/// access key in place of the password.
pub open spec fn merged_s3(incoming: Option<S3View>, existing: Option<S3View>) -> Option<S3View> {
    match incoming {
        None => existing,
        Some(i) => match existing {
            Some(e) => if i.secret_access_key.len() == 0 && e.secret_access_key.len() != 0 {
                Some(S3View { secret_access_key: e.secret_access_key, ..i })
            } else {
                Some(i)
            },
            None => Some(i),
        },
    }
}

/// The settings a save stores: sync credentials merged, migration markers
/// taken from the existing settings, everything else from the incoming ones.
pub open spec fn merged_settings(incoming: SettingsView, existing: SettingsView) -> SettingsView {
    SettingsView {
        webdav_sync: merged_webdav(incoming.webdav_sync, existing.webdav_sync),
        s3_sync: merged_s3(incoming.s3_sync, existing.s3_sync),
        local_migrations: existing.local_migrations,
        ..incoming
    }
}

/// Credentials the user sends are stored as sent: WebDAV settings with a
/// non-empty password, and S3 settings with a non-empty secret access key,
/// are merged unchanged; the stored password or secret fills in only an
/// empty one, and settings that are not sent keep the stored ones.
pub proof fn law_sent_credentials_win(incoming: SettingsView, existing: SettingsView)
    ensures
        incoming.webdav_sync matches Some(i) ==> (i.password.len() > 0 ==> merged_settings(
            incoming,
            existing,
        ).webdav_sync == Some(i)),
        incoming.s3_sync matches Some(i) ==> (i.secret_access_key.len() > 0 ==> merged_settings(
            incoming,
            existing,
        ).s3_sync == Some(i)),
        incoming.webdav_sync matches Some(i) ==> (merged_settings(incoming, existing).webdav_sync matches Some(m)
            && m.base_url == i.base_url && m.username == i.username && (m.password == i.password
            || (i.password.len() == 0 && (existing.webdav_sync matches Some(e) && m.password
            == e.password)))),
        incoming.webdav_sync is None ==> merged_settings(incoming, existing).webdav_sync
            == existing.webdav_sync,
        incoming.s3_sync is None ==> merged_settings(incoming, existing).s3_sync == existing.s3_sync,
{
}

/// Merges the settings the frontend sends with the stored ones before they
/// are saved.
pub fn merge_settings_for_save(incoming: AppSettings, existing: &AppSettings) -> (r: AppSettings)
    ensures
        r@ == merged_settings(incoming@, existing@),
{
    let mut incoming = incoming;
    let webdav = match incoming.webdav_sync {
        None => match &existing.webdav_sync {
            Some(e) => Some(e.copy()),
            None => None,
        },
        Some(mut i) => {
            match &existing.webdav_sync {
                Some(e) => {
                    if i.password.as_str().is_empty() && !e.password.as_str().is_empty() {
                        i.password = e.password.clone();
                    }
                },
                None => {},
            }
            Some(i)
        },
    };
    let s3 = match incoming.s3_sync {
        None => match &existing.s3_sync {
            Some(e) => Some(e.copy()),
            None => None,
        },
        Some(mut i) => {
            match &existing.s3_sync {
                Some(e) => {
                    if i.secret_access_key.as_str().is_empty()
                        && !e.secret_access_key.as_str().is_empty() {
                        i.secret_access_key = e.secret_access_key.clone();
                    }
                },
                None => {},
            }
            Some(i)
        },
    };
    let migrations = match &existing.local_migrations {
        Some(m) => Some(m.copy()),
        None => None,
    };
    AppSettings {
        webdav_sync: webdav,
        s3_sync: s3,
        local_migrations: migrations,
        unify_codex_session_history: incoming.unify_codex_session_history,
    }
}

/// Merging is idempotent: merging a merged result with the same stored
/// settings again changes nothing.
pub proof fn law_merge_idempotent(incoming: SettingsView, existing: SettingsView)
    ensures
        merged_settings(merged_settings(incoming, existing), existing) == merged_settings(
            incoming,
            existing,
        ),
{
}

/// Saving the stored settings unchanged stores them unchanged.
pub proof fn law_merge_existing_is_identity(existing: SettingsView)
    ensures
        merged_settings(existing, existing) == existing,
{
}

/// A stored password or secret key that is not empty is never replaced by
/// an empty one, whatever comes in.
pub proof fn law_merge_keeps_credentials(incoming: SettingsView, existing: SettingsView)
    ensures
        (existing.webdav_sync matches Some(e) && e.password.len() != 0) ==> (merged_settings(
            incoming,
            existing,
        ).webdav_sync matches Some(m) && m.password.len() != 0),
        (existing.s3_sync matches Some(e) && e.secret_access_key.len() != 0) ==> (merged_settings(
            incoming,
            existing,
        ).s3_sync matches Some(m) && m.secret_access_key.len() != 0),
{
}

/// The migration markers that a save stores are the stored ones, whatever
/// the incoming settings carry.
pub proof fn law_merge_markers_from_backend(
    incoming1: SettingsView,
    incoming2: SettingsView,
    existing: SettingsView,
)
    ensures
        merged_settings(incoming1, existing).local_migrations == merged_settings(
            incoming2,
            existing,
        ).local_migrations,
        merged_settings(incoming1, existing).local_migrations == existing.local_migrations,
{
}

/// What a save does besides storing the merged settings.
#[derive(PartialEq, Eq, Structural)]
pub enum UnifyFollowUp {
    /// the unified-history switch did not change
    Nothing,
    /// the switch was turned on: rewrite the live config, then migrate the
    /// existing history in the background
    RewriteLiveThenMigrate,
    /// the switch was turned off: rewrite the live config, then clear the
    /// migration marker and the wish to migrate
    RewriteLiveThenClearMarkers,
}

/// The merged settings a save stores and what it does afterwards.
pub struct SavePlan {
    pub merged: AppSettings,
    pub follow_up: UnifyFollowUp,
}

/// Plans a settings save: merges, then compares the unified-history switch
/// with the stored one.
pub fn plan_settings_save(incoming: AppSettings, existing: &AppSettings) -> (r: SavePlan)
    ensures
        r.merged@ == merged_settings(incoming@, existing@),
        r.follow_up == (if incoming.unify_codex_session_history
            == existing.unify_codex_session_history {
            UnifyFollowUp::Nothing
        } else if incoming.unify_codex_session_history {
            UnifyFollowUp::RewriteLiveThenMigrate
        } else {
            UnifyFollowUp::RewriteLiveThenClearMarkers
        }),
{
    let merged = merge_settings_for_save(incoming, existing);
    let follow_up = if merged.unify_codex_session_history == existing.unify_codex_session_history {
        UnifyFollowUp::Nothing
    } else if merged.unify_codex_session_history {
        UnifyFollowUp::RewriteLiveThenMigrate
    } else {
        UnifyFollowUp::RewriteLiveThenClearMarkers
    };
    SavePlan { merged, follow_up }
}

/// What restoring the unified Codex history from its backups did.
pub struct CodexUnifyHistoryRestoreResult {
    pub restored_jsonl_files: usize,
    pub restored_state_rows: usize,
    /// why the restore was skipped, when it was
    pub skipped_reason: Option<String>,
}

/// What migrating the official Codex history into the unified bucket did.
pub struct CodexUnifyHistoryMigrationResult {
    pub migrated_jsonl_files: usize,
    pub migrated_state_rows: usize,
    /// why the migration was skipped, when it was
    pub skipped_reason: Option<String>,
}

/// The prompt-cache lifetimes the optimizer accepts.
pub open spec fn cache_ttl_allowed(ttl: Seq<char>) -> bool {
    ttl == "5m"@ || ttl == "1h"@
}

/// Checks the optimizer's prompt-cache lifetime before it is stored: only
/// `5m` and `1h` are accepted; anything else is refused with a message that
/// names it.
pub fn validate_cache_ttl(cache_ttl: &str) -> (r: Result<(), String>)
    ensures
        cache_ttl_allowed(cache_ttl@) ==> r is Ok,
        !cache_ttl_allowed(cache_ttl@) ==> (r matches Err(m) && m@ == "Invalid cache_ttl value: '"@
            + cache_ttl@ + "'. Allowed values: '5m', '1h'"@),
{
    let t = crate::text::chars_of(cache_ttl);
    let five = crate::text::chars_of("5m");
    let hour = crate::text::chars_of("1h");
    if crate::config_text::vec_eq(&t, &five) || crate::config_text::vec_eq(&t, &hour) {
        return Ok(());
    }
    let mut m = String::from_str("Invalid cache_ttl value: '");
    m.append(cache_ttl);
    m.append("'. Allowed values: '5m', '1h'");
    Err(m)
}

/// What a settings save waits for: the answer to the step it asked for
/// last.
#[derive(PartialEq, Eq, Structural)]
pub enum SavePhase {
    AwaitStore,
    AwaitLiveRewrite,
    AwaitRollback,
    AwaitFollowUp,
    Done,
}

/// What the caller runs next during a settings save.
pub enum SaveAction {
    /// store these settings (answer with `Ready`)
    Store(AppSettings),
    /// rewrite the live config of the current official Codex provider
    /// (answer with `Ready`)
    RewriteLive,
    /// store the settings from before the save again (answer with `Ready`;
    /// a failure there is only reported to the log)
    Rollback(AppSettings),
    /// migrate the existing official history in the background (answer
    /// with `Ready(Ok(()))`)
    StartMigration,
    /// clear the unify migration marker and the wish to migrate existing
    /// history (answer with `Ready(Ok(()))`; failures are only logged)
    ClearMarkers,
    /// the save is over
    Finish(Result<bool, String>),
}

/// A settings save under way.
pub struct SaveFlow {
    pub phase: SavePhase,
    pub existing: AppSettings,
    pub follow_up: UnifyFollowUp,
    pub failure: String,
}

/// Starts saving settings: merges them with the stored ones and asks to
/// store the result.
pub fn save_settings(incoming: AppSettings, existing: AppSettings) -> (r: (SaveFlow, SaveAction))
    ensures
        r.0.phase == SavePhase::AwaitStore,
        r.0.existing == existing,
        r.1 matches SaveAction::Store(m) && m@ == merged_settings(incoming@, existing@),
        r.0.follow_up == (if incoming.unify_codex_session_history
            == existing.unify_codex_session_history {
            UnifyFollowUp::Nothing
        } else if incoming.unify_codex_session_history {
            UnifyFollowUp::RewriteLiveThenMigrate
        } else {
            UnifyFollowUp::RewriteLiveThenClearMarkers
        }),
{
    let plan = plan_settings_save(incoming, &existing);
    (
        SaveFlow {
            phase: SavePhase::AwaitStore,
            existing,
            follow_up: plan.follow_up,
            failure: String::new(),
        },
        SaveAction::Store(plan.merged),
    )
}

impl SaveFlow {
    /// The next step of a save, from what the last one gave back: a failed
    /// store ends it; an unchanged switch ends it with success; otherwise
    /// the live config is rewritten, and when that fails the old settings
    /// are stored back and the save fails with the reason; when it works,
    /// turning the switch on starts the migration and turning it off clears
    /// the markers, and the save succeeds.
    pub fn step(&mut self, answer: Result<(), String>) -> (r: SaveAction)
        requires
            old(self).phase != SavePhase::Done,
        ensures
            final(self).follow_up == old(self).follow_up,
            final(self).existing == old(self).existing,
            final(self).existing@ == old(self).existing@,
            old(self).phase == SavePhase::AwaitStore ==> match answer {
                Err(e) => r == SaveAction::Finish(Err(e)),
                Ok(()) => if old(self).follow_up == UnifyFollowUp::Nothing {
                    r == SaveAction::Finish(Ok(true))
                } else {
                    r == SaveAction::RewriteLive && final(self).phase == SavePhase::AwaitLiveRewrite
                },
            },
            old(self).phase == SavePhase::AwaitLiveRewrite ==> match answer {
                Err(e) => (r matches SaveAction::Rollback(s) && s@ == old(self).existing@)
                    && final(self).phase == SavePhase::AwaitRollback && final(self).failure == e,
                Ok(()) => final(self).phase == SavePhase::AwaitFollowUp && if old(self).follow_up
                    == UnifyFollowUp::RewriteLiveThenMigrate {
                    r == SaveAction::StartMigration
                } else {
                    r == SaveAction::ClearMarkers
                },
            },
            old(self).phase == SavePhase::AwaitRollback ==> (r matches SaveAction::Finish(Err(m))
                && m@ == "统一 Codex 会话历史开关未生效（live 配置重写失败）: "@ + old(self).failure@),
            old(self).phase == SavePhase::AwaitFollowUp ==> r == SaveAction::Finish(Ok(true)),
            r is Finish ==> final(self).phase == SavePhase::Done,
    {
        match self.phase {
            SavePhase::AwaitStore => match answer {
                Err(e) => {
                    self.phase = SavePhase::Done;
                    SaveAction::Finish(Err(e))
                },
                Ok(()) => {
                    if self.follow_up == UnifyFollowUp::Nothing {
                        self.phase = SavePhase::Done;
                        SaveAction::Finish(Ok(true))
                    } else {
                        self.phase = SavePhase::AwaitLiveRewrite;
                        SaveAction::RewriteLive
                    }
                },
            },
            SavePhase::AwaitLiveRewrite => match answer {
                Err(e) => {
                    self.failure = e;
                    self.phase = SavePhase::AwaitRollback;
                    SaveAction::Rollback(self.existing.copy())
                },
                Ok(()) => {
                    self.phase = SavePhase::AwaitFollowUp;
                    if self.follow_up == UnifyFollowUp::RewriteLiveThenMigrate {
                        SaveAction::StartMigration
                    } else {
                        SaveAction::ClearMarkers
                    }
                },
            },
            SavePhase::AwaitRollback => {
                let mut m = String::from_str("统一 Codex 会话历史开关未生效（live 配置重写失败）: ");
                m.append(self.failure.as_str());
                self.phase = SavePhase::Done;
                SaveAction::Finish(Err(m))
            },
            SavePhase::AwaitFollowUp => {
                self.phase = SavePhase::Done;
                SaveAction::Finish(Ok(true))
            },
            SavePhase::Done => SaveAction::Finish(Ok(true)),
        }
    }
}

} // verus!
