//! Making new profiles (imported from the current Codex files, or for a
//! proxy) and summarising profiles and the current Codex state.
use vstd::prelude::*;
use crate::text::{
    chars_of, push_char, string_of, sub_vec, trim_end, trim_end_range, trim_range, trim_ws, CharSet,
};
use crate::config_text::{
    api_base, normalize_proxy_base_url, opt_view, toml_value, extract_toml_value,
};
use crate::codex_config::{
    account_mode_config, account_mode_text, api_auth_json, api_auth_text, config_base_url,
    extract_base_url, proxy_account_config, proxy_account_text, proxy_api_config, proxy_api_text,
};
use crate::auth::{
    account_info, auth_account, auth_api_key, auth_has_api_key, auth_has_login_tokens,
    auth_login_tokens, auth_mode, auth_mode_label,
};
use crate::digest::{opt_fingerprint, short_hash};
use crate::profiles::{
    active_index, active_profile, new_uuid, opt_string_eq, uuid_v4_text, str_eq, CodexSystem, Profile, ProfileKind, Store};

verus! {

/// What the import form sends.
pub struct ImportInput {
    pub name: String,
    pub notes: Option<String>,
    pub kind: ProfileKind,
}

/// What the proxy profile form sends.
pub struct ProxyProfileInput {
    pub name: String,
    pub base_url: String,
    pub api_key: String,
    pub model: String,
    pub review_model: String,
    pub reasoning_effort: String,
    pub notes: Option<String>,
    pub codex_system: Option<CodexSystem>,
}

fn trimmed(s: &str) -> (r: String)
    ensures
        r@ == trim_ws(s@),
{
    let cs = chars_of(s);
    let ws = CharSet::Whitespace;
    let (a, b) = trim_range(&cs, 0, cs.len(), &ws);
    proof {
        assert(cs@.subrange(0, cs@.len() as int) =~= cs@);
    }
    string_of(&sub_vec(&cs, a, b))
}

fn notes_or_empty(notes: &Option<String>) -> (r: String)
    ensures
        r@ == (match notes {
            Some(n) => n@,
            None => Seq::<char>::empty(),
        }),
{
    match notes {
        Some(n) => n.clone(),
        None => String::new(),
    }
}

/// The setup a profile imported with these files uses: the API setup when
/// the auth file holds an API key and no login tokens.
pub open spec fn imported_system(auth: Option<Seq<char>>) -> CodexSystem {
    if auth_api_key(auth) && !auth_login_tokens(auth) {
        CodexSystem::Api
    } else {
        CodexSystem::Account
    }
}

/// The profile made from the current Codex files (as read, or why they
/// could not be): name trimmed, an account profile's config turned into an
/// account-mode config, new random ids and both timestamps `now`. The name
/// is checked before the files.
pub fn new_imported_profile(
    input: &ImportInput,
    files: Result<(Option<String>, Option<String>), String>,
    now: &str,
) -> (r: Result<Profile, String>)
    ensures
        trim_ws(input.name@).len() == 0 ==> (r matches Err(e) && e@ == "请输入档案名称"@),
        trim_ws(input.name@).len() != 0 ==> match files {
            Err(m) => r matches Err(e) && e@ == m@,
            Ok((config_toml, auth_json)) => if config_toml is None && auth_json is None {
                r matches Err(e) && e@ == "当前 Codex 目录下没有可导入的 config.toml 或 auth.json"@
            } else {
                r matches Ok(p) && p.name@ == trim_ws(input.name@) && p.kind == input.kind
                    && p.notes@ == (match input.notes {
                    Some(n) => n@,
                    None => Seq::<char>::empty(),
                }) && p.created_at@ == now@ && p.updated_at@ == now@ && p.auth_json == auth_json
                    && p.codex_system == imported_system(opt_view(auth_json)) && uuid_v4_text(p.id@)
                    && uuid_v4_text(p.workspace_id@) && (if p.codex_system == CodexSystem::Api {
                    p.config_toml == config_toml
                } else {
                    match config_toml {
                        None => p.config_toml is None,
                        Some(c) => p.config_toml matches Some(t) && account_mode_text(t@, Some(c@)),
                    }
                })
            },
        },
{
    let name = trimmed(input.name.as_str());
    if name.as_str().is_empty() {
        return Err(String::from_str("请输入档案名称"));
    }
    let (config_toml, auth_json) = match files {
        Ok(f) => f,
        Err(e) => return Err(e),
    };
    if config_toml.is_none() && auth_json.is_none() {
        return Err(String::from_str("当前 Codex 目录下没有可导入的 config.toml 或 auth.json"));
    }
    let codex_system = if auth_has_api_key(&auth_json) && !auth_has_login_tokens(&auth_json) {
        CodexSystem::Api
    } else {
        CodexSystem::Account
    };
    let config = match codex_system {
        CodexSystem::Account => match &config_toml {
            Some(raw) => Some(account_mode_config(Some(raw.as_str()))),
            None => None,
        },
        CodexSystem::Api => config_toml,
    };
    Ok(Profile {
        id: new_uuid(),
        workspace_id: new_uuid(),
        codex_system,
        name,
        kind: input.kind.copy(),
        notes: notes_or_empty(&input.notes),
        created_at: String::from_str(now),
        updated_at: String::from_str(now),
        config_toml: config,
        auth_json,
    })
}

/// A proxy profile's settings once the form is checked.
pub struct ProxySettings {
    pub name: String,
    pub api_key: String,
    pub codex_system: CodexSystem,
    pub config_toml: String,
}

/// A text trimmed, or a default when that leaves nothing.
pub open spec fn trimmed_or(s: Seq<char>, d: Seq<char>) -> Seq<char> {
    if trim_ws(s).len() == 0 {
        d
    } else {
        trim_ws(s)
    }
}

/// The setup a proxy form asks for: the API setup unless it says otherwise.
pub open spec fn requested_system(input: ProxyProfileInput) -> CodexSystem {
    match input.codex_system {
        Some(s) => s,
        None => CodexSystem::Api,
    }
}

/// Why a proxy form is refused, if it is.
pub open spec fn proxy_input_problem(input: ProxyProfileInput) -> Option<Seq<char>> {
    if trim_ws(input.name@).len() == 0 || api_base(input.base_url@).len() == 0 {
        Some("名称和 Base URL 不能为空"@)
    } else if requested_system(input) == CodexSystem::Api && trim_ws(input.api_key@).len() == 0 {
        Some("API Key 环境需要填写 API Key"@)
    } else {
        None
    }
}

fn trimmed_or_exec(s: &str, d: &str) -> (r: String)
    ensures
        r@ == trimmed_or(s@, d@),
{
    let t = trimmed(s);
    if t.as_str().is_empty() {
        String::from_str(d)
    } else {
        t
    }
}

/// Checks a proxy form and writes the profile's config: model, review model
/// and effort trimmed (defaults `gpt-5.5`, the model, `xhigh`), the base URL
/// normalised.
pub fn validate_proxy_input(input: &ProxyProfileInput) -> (r: Result<ProxySettings, String>)
    ensures
        match proxy_input_problem(*input) {
            Some(msg) => r matches Err(e) && e@ == msg,
            None => r matches Ok(s) && s.name@ == trim_ws(input.name@) && s.api_key@ == trim_ws(
                input.api_key@,
            ) && s.codex_system == requested_system(*input) && ({
                let model = trimmed_or(input.model@, "gpt-5.5"@);
                let review = trimmed_or(input.review_model@, model);
                let effort = trimmed_or(input.reasoning_effort@, "xhigh"@);
                let base = api_base(input.base_url@);
                if s.codex_system == CodexSystem::Account {
                    proxy_account_text(s.config_toml@, model, review, effort, base)
                } else {
                    proxy_api_text(s.config_toml@, model, review, effort, base)
                }
            }),
        },
{
    let name = trimmed(input.name.as_str());
    let base_url = normalize_proxy_base_url(input.base_url.as_str());
    let api_key = trimmed(input.api_key.as_str());
    let codex_system = match &input.codex_system {
        Some(s) => s.copy(),
        None => CodexSystem::Api,
    };
    if name.as_str().is_empty() || base_url.as_str().is_empty() {
        return Err(String::from_str("名称和 Base URL 不能为空"));
    }
    if codex_system == CodexSystem::Api && api_key.as_str().is_empty() {
        return Err(String::from_str("API Key 环境需要填写 API Key"));
    }
    let model = trimmed_or_exec(input.model.as_str(), "gpt-5.5");
    let review_model = trimmed_or_exec(input.review_model.as_str(), model.as_str());
    let effort = trimmed_or_exec(input.reasoning_effort.as_str(), "xhigh");
    let config_toml = match codex_system {
        CodexSystem::Account => proxy_account_config(
            model.as_str(),
            review_model.as_str(),
            effort.as_str(),
            base_url.as_str(),
        ),
        CodexSystem::Api => proxy_api_config(
            model.as_str(),
            review_model.as_str(),
            effort.as_str(),
            base_url.as_str(),
        ),
    };
    Ok(ProxySettings { name, api_key, codex_system, config_toml })
}

/// The auth file of a proxy profile: for the account setup, the current
/// auth file when it holds a ChatGPT login, else one with the API key
/// (refused without a key); for the API setup, one with the API key.
pub open spec fn proxy_auth(
    system: CodexSystem,
    api_key: Seq<char>,
    current_auth: Option<Seq<char>>,
) -> Result<Seq<char>, Seq<char>> {
    if system == CodexSystem::Account {
        if auth_mode_label(current_auth) == "ChatGPT 登录授权"@ {
            Ok(
                match current_auth {
                    Some(a) => a,
                    None => api_auth_text(api_key),
                },
            )
        } else if api_key.len() == 0 {
            Err("当前没有 ChatGPT 登录授权；请先设备码登录，或填写 API Key。"@)
        } else {
            Ok(api_auth_text(api_key))
        }
    } else {
        Ok(api_auth_text(api_key))
    }
}

/// The auth file a proxy profile gets. The current auth file is read only
/// for the account setup.
pub fn proxy_auth_json(settings: &ProxySettings, current_auth: &Option<String>) -> (r: Result<
    String,
    String,
>)
    ensures
        match proxy_auth(settings.codex_system, settings.api_key@, opt_view(*current_auth)) {
            Ok(t) => r matches Ok(s) && s@ == t,
            Err(m) => r matches Err(e) && e@ == m,
        },
{
    match settings.codex_system {
        CodexSystem::Account => {
            let mode = auth_mode(current_auth);
            if str_eq(mode.as_str(), "ChatGPT 登录授权") {
                match current_auth {
                    Some(a) => Ok(a.clone()),
                    None => Ok(api_auth_json(settings.api_key.as_str())),
                }
            } else if settings.api_key.as_str().is_empty() {
                Err(String::from_str("当前没有 ChatGPT 登录授权；请先设备码登录，或填写 API Key。"))
            } else {
                Ok(api_auth_json(settings.api_key.as_str()))
            }
        },
        CodexSystem::Api => Ok(api_auth_json(settings.api_key.as_str())),
    }
}

/// The new proxy profile: kind proxy, new random ids, both timestamps `now`,
/// the auth file with trailing whitespace replaced by one newline.
pub fn build_proxy_profile(
    settings: ProxySettings,
    auth_json: &str,
    notes: &Option<String>,
    now: &str,
) -> (r: Profile)
    ensures
        r.name == settings.name,
        r.codex_system == settings.codex_system,
        r.kind == ProfileKind::ProxyApiKey,
        r.config_toml == Some(settings.config_toml),
        r.auth_json matches Some(a) && a@ == trim_end(auth_json@, CharSet::Whitespace).push('\n'),
        r.notes@ == (match notes {
            Some(n) => n@,
            None => Seq::<char>::empty(),
        }),
        r.created_at@ == now@,
        r.updated_at@ == now@,
        uuid_v4_text(r.id@),
        uuid_v4_text(r.workspace_id@),
{
    let cs = chars_of(auth_json);
    let ws = CharSet::Whitespace;
    let e = trim_end_range(&cs, 0, cs.len(), &ws);
    proof {
        assert(cs@.subrange(0, cs@.len() as int) =~= cs@);
    }
    let mut auth = string_of(&sub_vec(&cs, 0, e));
    push_char(&mut auth, '\n');
    Profile {
        id: new_uuid(),
        workspace_id: new_uuid(),
        codex_system: settings.codex_system,
        name: settings.name,
        kind: ProfileKind::ProxyApiKey,
        notes: notes_or_empty(notes),
        created_at: String::from_str(now),
        updated_at: String::from_str(now),
        config_toml: Some(settings.config_toml),
        auth_json: Some(auth),
    }
}

/// What the profile list shows of a profile.
pub struct ProfileSummary {
    pub id: String,
    pub workspace_id: String,
    pub name: String,
    pub kind: ProfileKind,
    pub notes: String,
    pub created_at: String,
    pub updated_at: String,
    pub config_hash: Option<String>,
    pub auth_hash: Option<String>,
    pub model: Option<String>,
    pub base_url: Option<String>,
    pub account_email: Option<String>,
    pub account_name: Option<String>,
    pub account_plan: Option<String>,
    pub account_id: Option<String>,
    pub has_config: bool,
    pub has_auth: bool,
    pub codex_system: CodexSystem,
    pub is_active: bool,
}

/// Whether a profile is shown as active: it is the active one, or its files
/// have the fingerprints of the current Codex files.
pub open spec fn shown_active(
    p: Profile,
    current_config: Option<Seq<char>>,
    current_auth: Option<Seq<char>>,
    active_id: Option<Seq<char>>,
) -> bool {
    active_id == Some(p.id@) || (opt_fingerprint(opt_view(p.config_toml)) == opt_fingerprint(
        current_config,
    ) && opt_fingerprint(opt_view(p.auth_json)) == opt_fingerprint(current_auth))
}

/// The summary says what the profile holds.
pub open spec fn summarizes(
    s: ProfileSummary,
    p: Profile,
    current_config: Option<Seq<char>>,
    current_auth: Option<Seq<char>>,
    active_id: Option<Seq<char>>,
) -> bool {
    let account = auth_account(opt_view(p.auth_json));
    &&& s.id == p.id
    &&& s.workspace_id == p.workspace_id
    &&& s.name == p.name
    &&& s.kind == p.kind
    &&& s.notes == p.notes
    &&& s.created_at == p.created_at
    &&& s.updated_at == p.updated_at
    &&& opt_view(s.config_hash) == opt_fingerprint(opt_view(p.config_toml))
    &&& opt_view(s.auth_hash) == opt_fingerprint(opt_view(p.auth_json))
    &&& opt_view(s.model) == toml_value(opt_view(p.config_toml), "model"@)
    &&& opt_view(s.base_url) == config_base_url(opt_view(p.config_toml))
    &&& opt_view(s.account_email) == account.email
    &&& opt_view(s.account_name) == account.name
    &&& opt_view(s.account_plan) == account.plan
    &&& opt_view(s.account_id) == account.account_id
    &&& s.has_config == p.config_toml is Some
    &&& s.has_auth == p.auth_json is Some
    &&& s.codex_system == p.codex_system
    &&& s.is_active == shown_active(p, current_config, current_auth, active_id)
}

/// The summary of a profile.
pub fn summarize(
    profile: &Profile,
    current_config: &Option<String>,
    current_auth: &Option<String>,
    active_profile_id: Option<&str>,
) -> (r: ProfileSummary)
    ensures
        summarizes(
            r,
            *profile,
            opt_view(*current_config),
            opt_view(*current_auth),
            match active_profile_id {
                Some(a) => Some(a@),
                None => None,
            },
        ),
{
    let config_hash = short_hash(&profile.config_toml);
    let auth_hash = short_hash(&profile.auth_json);
    let account = account_info(&profile.auth_json);
    let by_id = match active_profile_id {
        Some(a) => str_eq(a, profile.id.as_str()),
        None => false,
    };
    let current_config_hash = short_hash(current_config);
    let current_auth_hash = short_hash(current_auth);
    let is_active = by_id || (opt_string_eq(&config_hash, &current_config_hash) && opt_string_eq(
        &auth_hash,
        &current_auth_hash,
    ));
    ProfileSummary {
        id: profile.id.clone(),
        workspace_id: profile.workspace_id.clone(),
        name: profile.name.clone(),
        kind: profile.kind.copy(),
        notes: profile.notes.clone(),
        created_at: profile.created_at.clone(),
        updated_at: profile.updated_at.clone(),
        config_hash,
        auth_hash,
        model: extract_toml_value(&profile.config_toml, "model"),
        base_url: extract_base_url(&profile.config_toml),
        account_email: account.email,
        account_name: account.name,
        account_plan: account.plan,
        account_id: account.account_id,
        has_config: profile.config_toml.is_some(),
        has_auth: profile.auth_json.is_some(),
        codex_system: profile.codex_system.copy(),
        is_active,
    }
}

/// What the app shows of the current Codex directory.
pub struct CurrentCodexState {
    pub codex_dir: String,
    pub config_path: String,
    pub auth_path: String,
    pub config_exists: bool,
    pub auth_exists: bool,
    pub config_hash: Option<String>,
    pub auth_hash: Option<String>,
    pub model: Option<String>,
    pub base_url: Option<String>,
    pub account_email: Option<String>,
    pub account_name: Option<String>,
    pub account_plan: Option<String>,
    pub account_id: Option<String>,
    pub auth_mode: String,
    pub active_profile_id: Option<String>,
    pub session_size: u64,
}

/// Where the Codex files are, as the app shows them.
pub struct CodexPaths {
    pub codex_dir: String,
    pub config_path: String,
    pub auth_path: String,
}

/// The state describes the current files.
pub open spec fn describes_current(
    s: CurrentCodexState,
    config: Option<Seq<char>>,
    auth: Option<Seq<char>>,
) -> bool {
    let account = auth_account(auth);
    &&& s.config_exists == config is Some
    &&& s.auth_exists == auth is Some
    &&& opt_view(s.config_hash) == opt_fingerprint(config)
    &&& opt_view(s.auth_hash) == opt_fingerprint(auth)
    &&& opt_view(s.model) == toml_value(config, "model"@)
    &&& opt_view(s.base_url) == config_base_url(config)
    &&& opt_view(s.account_email) == account.email
    &&& opt_view(s.account_name) == account.name
    &&& opt_view(s.account_plan) == account.plan
    &&& opt_view(s.account_id) == account.account_id
    &&& s.auth_mode@ == auth_mode_label(auth)
}

/// The state of the current Codex directory.
pub fn current_state(
    active_profile_id: Option<String>,
    paths: CodexPaths,
    config: &Option<String>,
    auth: &Option<String>,
    session_size: u64,
) -> (r: CurrentCodexState)
    ensures
        describes_current(r, opt_view(*config), opt_view(*auth)),
        r.active_profile_id == active_profile_id,
        r.session_size == session_size,
        r.codex_dir == paths.codex_dir,
        r.config_path == paths.config_path,
        r.auth_path == paths.auth_path,
{
    let account = account_info(auth);
    CurrentCodexState {
        codex_dir: paths.codex_dir,
        config_path: paths.config_path,
        auth_path: paths.auth_path,
        config_exists: config.is_some(),
        auth_exists: auth.is_some(),
        config_hash: short_hash(config),
        auth_hash: short_hash(auth),
        model: extract_toml_value(config, "model"),
        base_url: extract_base_url(config),
        account_email: account.email,
        account_name: account.name,
        account_plan: account.plan,
        account_id: account.account_id,
        auth_mode: auth_mode(auth),
        active_profile_id,
        session_size,
    }
}

/// The current state and the summaries of all profiles.
pub struct CodexAccountState {
    pub current: CurrentCodexState,
    pub profiles: Vec<ProfileSummary>,
}

/// The id of the active profile, if any.
pub open spec fn active_id(store: Store, config: Option<Seq<char>>, auth: Option<Seq<char>>) -> Option<
    Seq<char>,
> {
    match active_index(store, config, auth) {
        Some(i) => Some(store.profiles@[i].id@),
        None => None,
    }
}

/// What the accounts page shows: the current directory with the active
/// profile's id, and every profile's summary in store order.
pub fn account_state(
    store: &Store,
    paths: CodexPaths,
    config: &Option<String>,
    auth: &Option<String>,
    session_size: u64,
) -> (r: CodexAccountState)
    ensures
        describes_current(r.current, opt_view(*config), opt_view(*auth)),
        opt_view(r.current.active_profile_id) == active_id(*store, opt_view(*config), opt_view(*auth)),
        r.current.session_size == session_size,
        r.profiles@.len() == store.profiles@.len(),
        forall|i: int|
            0 <= i < store.profiles@.len() ==> summarizes(
                #[trigger] r.profiles@[i],
                store.profiles@[i],
                opt_view(*config),
                opt_view(*auth),
                active_id(*store, opt_view(*config), opt_view(*auth)),
            ),
{
    let active = match active_profile(store, config, auth) {
        Some(p) => Some(p.id.clone()),
        None => None,
    };
    let ghost aid = active_id(*store, opt_view(*config), opt_view(*auth));
    assert(opt_view(active) == aid);
    let mut summaries: Vec<ProfileSummary> = Vec::new();
    let mut i: usize = 0;
    while i < store.profiles.len()
        invariant
            i <= store.profiles@.len(),
            summaries@.len() == i,
            opt_view(active) == aid,
            aid == active_id(*store, opt_view(*config), opt_view(*auth)),
            forall|j: int|
                0 <= j < i ==> summarizes(
                    #[trigger] summaries@[j],
                    store.profiles@[j],
                    opt_view(*config),
                    opt_view(*auth),
                    aid,
                ),
        decreases store.profiles@.len() - i,
    {
        let a = match &active {
            Some(a) => Some(a.as_str()),
            None => None,
        };
        let s = summarize(&store.profiles[i], config, auth, a);
        summaries.push(s);
        i = i + 1;
    }
    let current = current_state(active, paths, config, auth, session_size);
    CodexAccountState { current, profiles: summaries }
}

/// The entries under the Codex directory that hold session history, whose
/// sizes make up the session size.
pub fn managed_session_paths() -> (r: Vec<&'static str>)
    ensures
        r@.map_values(|p: &str| p@) == seq![
            "sessions"@,
            "archived_sessions"@,
            "session_index.jsonl"@,
            "history.jsonl"@,
            "state_5.sqlite"@,
            "state_5.sqlite-shm"@,
            "state_5.sqlite-wal"@,
            "goals_1.sqlite"@,
            "goals_1.sqlite-shm"@,
            "goals_1.sqlite-wal"@,
        ],
{
    let mut v: Vec<&'static str> = Vec::new();
    v.push("sessions");
    v.push("archived_sessions");
    v.push("session_index.jsonl");
    v.push("history.jsonl");
    v.push("state_5.sqlite");
    v.push("state_5.sqlite-shm");
    v.push("state_5.sqlite-wal");
    v.push("goals_1.sqlite");
    v.push("goals_1.sqlite-shm");
    v.push("goals_1.sqlite-wal");
    assert(v@.map_values(|p: &str| p@) =~= seq![
        "sessions"@,
        "archived_sessions"@,
        "session_index.jsonl"@,
        "history.jsonl"@,
        "state_5.sqlite"@,
        "state_5.sqlite-shm"@,
        "state_5.sqlite-wal"@,
        "goals_1.sqlite"@,
        "goals_1.sqlite-shm"@,
        "goals_1.sqlite-wal"@,
    ]);
    v
}

/// The sum of sizes.
pub open spec fn total(sizes: Seq<u64>) -> int
    decreases sizes.len(),
{
    if sizes.len() == 0 {
        0
    } else {
        total(sizes.drop_last()) + sizes.last()
    }
}

/// The size of the session history: the sizes of the managed entries added
/// up.
pub fn current_session_size(sizes: &Vec<u64>) -> (r: u64)
    requires
        total(sizes@) <= u64::MAX,
    ensures
        r == total(sizes@),
{
    let mut sum: u64 = 0;
    let mut i: usize = 0;
    while i < sizes.len()
        invariant
            i <= sizes@.len(),
            sum == total(sizes@.take(i as int)),
            total(sizes@) <= u64::MAX,
        decreases sizes@.len() - i,
    {
        proof {
            assert(sizes@.take(i + 1).drop_last() =~= sizes@.take(i as int));
            lemma_total_prefix(sizes@, i + 1);
        }
        sum = sum + sizes[i];
        i = i + 1;
    }
    proof {
        assert(sizes@.take(sizes@.len() as int) =~= sizes@);
    }
    sum
}

proof fn lemma_total_prefix(s: Seq<u64>, k: int)
    requires
        0 <= k <= s.len(),
    ensures
        total(s.take(k)) <= total(s),
    decreases s.len() - k,
{
    if k < s.len() {
        lemma_total_prefix(s, k + 1);
        assert(s.take(k + 1).drop_last() =~= s.take(k));
    } else {
        assert(s.take(k) =~= s);
    }
}

/// The current Codex files, `config.toml` then `auth.json`, from their
/// reads: the first failed read is the failure.
pub fn current_files(
    config: Result<Option<String>, String>,
    auth: Result<Option<String>, String>,
) -> (r: Result<(Option<String>, Option<String>), String>)
    ensures
        match (config, auth) {
            (Err(e), _) => r == Err::<(Option<String>, Option<String>), String>(e),
            (Ok(_), Err(e)) => r == Err::<(Option<String>, Option<String>), String>(e),
            (Ok(c), Ok(a)) => r == Ok::<(Option<String>, Option<String>), String>((c, a)),
        },
{
    let c = match config {
        Ok(c) => c,
        Err(e) => return Err(e),
    };
    let a = match auth {
        Ok(a) => a,
        Err(e) => return Err(e),
    };
    Ok((c, a))
}

/// What switching profiles reports: the message and the new state.
pub struct SwitchProfileResult {
    pub message: String,
    pub app_state: CodexAccountState,
}

/// Whether the sizes add up to a number that fits in `u64`.
pub fn total_fits(sizes: &Vec<u64>) -> (r: bool)
    ensures
        r == (total(sizes@) <= u64::MAX),
{
    let mut sum: u64 = 0;
    let mut i: usize = 0;
    while i < sizes.len()
        invariant
            i <= sizes@.len(),
            sum == total(sizes@.take(i as int)),
        decreases sizes@.len() - i,
    {
        proof {
            assert(sizes@.take(i + 1).drop_last() =~= sizes@.take(i as int));
        }
        if sum > u64::MAX - sizes[i] {
            proof {
                lemma_total_prefix(sizes@, i + 1);
            }
            return false;
        }
        sum = sum + sizes[i];
        i = i + 1;
    }
    proof {
        assert(sizes@.take(sizes@.len() as int) =~= sizes@);
    }
    true
}

/// What switching profiles reports, with the state after the switch.
pub fn switch_result(app_state: CodexAccountState) -> (r: SwitchProfileResult)
    ensures
        r.message@ == crate::profiles::switched_message(),
        r.app_state == app_state,
{
    SwitchProfileResult {
        message: String::from_str("已切换 Codex 档案；正在使用的 Codex App/CLI 可能需要重启后完全生效。"),
        app_state,
    }
}

} // verus!
