//! Codex profiles and their store: the saved `config.toml`/`auth.json`
//! pairs, what each is summarised as, which one is active, and how the
//! store changes when profiles are added, normalised or deleted.
use vstd::prelude::*;
use crate::text::chars_of;
use crate::config_text::{
    api_base, extract_toml_value, opt_view, toml_value, trim_api_version_suffix,
};
use crate::codex_config::{
    config_base_url, extract_base_url, proxy_api_config, proxy_api_text,
};
use crate::auth::{auth_api_key, auth_has_api_key, auth_has_login_tokens, auth_login_tokens};

verus! {

/// How a profile was made.
#[derive(PartialEq, Eq, Structural)]
pub enum ProfileKind {
    ChatGptLogin,
    ProxyApiKey,
    Custom,
}

/// Which Codex setup a profile drives: the ChatGPT account login, or an API key.
#[derive(PartialEq, Eq, Structural)]
pub enum CodexSystem {
    Account,
    Api,
}

impl ProfileKind {
    pub fn copy(&self) -> (r: Self)
        ensures
            r == *self,
    {
        match self {
            ProfileKind::ChatGptLogin => ProfileKind::ChatGptLogin,
            ProfileKind::ProxyApiKey => ProfileKind::ProxyApiKey,
            ProfileKind::Custom => ProfileKind::Custom,
        }
    }
}

impl CodexSystem {
    pub fn copy(&self) -> (r: Self)
        ensures
            r == *self,
    {
        match self {
            CodexSystem::Account => CodexSystem::Account,
            CodexSystem::Api => CodexSystem::Api,
        }
    }
}

impl Default for CodexSystem {
    fn default() -> (r: Self)
        ensures
            r == CodexSystem::Account,
    {
        CodexSystem::Account
    }
}

/// A saved profile. Timestamps are RFC 3339 texts.
pub struct Profile {
    pub id: String,
    pub workspace_id: String,
    pub name: String,
    pub kind: ProfileKind,
    pub notes: String,
    pub created_at: String,
    pub updated_at: String,
    pub config_toml: Option<String>,
    pub auth_json: Option<String>,
    pub codex_system: CodexSystem,
}

/// The profile store: the profiles and the one last switched to.
pub struct Store {
    pub active_profile_id: Option<String>,
    pub profiles: Vec<Profile>,
}

/// The message when an API profile lacks its key.
pub open spec fn missing_key_message(name: Seq<char>) -> Seq<char> {
    "API Key 档案「"@ + name + "」没有写入 OPENAI_API_KEY，请重新填写 Key 后创建。"@
}

/// The message when an API profile lacks its config.
pub open spec fn missing_config_message(name: Seq<char>) -> Seq<char> {
    "API Key 档案「"@ + name + "」缺少 config.toml，请重新创建。"@
}

/// The message when an API profile's config names no base URL.
pub open spec fn missing_base_url_message(name: Seq<char>) -> Seq<char> {
    "API Key 档案「"@ + name + "」缺少 Base URL，请重新创建。"@
}

/// A value or, when absent, a default.
pub open spec fn or_default(v: Option<Seq<char>>, d: Seq<char>) -> Seq<char> {
    match v {
        Some(x) => x,
        None => d,
    }
}

/// `text` is the API config an API profile's config is rewritten to: model,
/// review model and effort read from it (defaults `gpt-5.5`, the model,
/// `xhigh`) and its base URL with the `/v1` suffix removed.
pub open spec fn rewritten_api_text(text: Seq<char>, config: Seq<char>) -> bool {
    let model = or_default(toml_value(Some(config), "model"@), "gpt-5.5"@);
    let review = or_default(toml_value(Some(config), "review_model"@), model);
    let effort = or_default(toml_value(Some(config), "model_reasoning_effort"@), "xhigh"@);
    let url = config_base_url(Some(config))->0;
    proxy_api_text(text, model, review, effort, api_base(url))
}

/// Why an API profile's files cannot be rewritten, if they cannot.
pub open spec fn api_profile_problem(
    name: Seq<char>,
    config: Option<Seq<char>>,
    auth: Option<Seq<char>>,
) -> Option<Seq<char>> {
    if !auth_api_key(auth) {
        Some(missing_key_message(name))
    } else if config is None {
        Some(missing_config_message(name))
    } else if config_base_url(config) is None {
        Some(missing_base_url_message(name))
    } else {
        None
    }
}

fn text_or(v: Option<String>, d: &str) -> (r: String)
    ensures
        r@ == or_default(opt_view(v), d@),
{
    match v {
        Some(x) => x,
        None => String::from_str(d),
    }
}

fn named_message(head: &str, name: &String, tail: &str) -> (r: String)
    ensures
        r@ == head@ + name@ + tail@,
{
    let mut m = String::from_str(head);
    m.append(name.as_str());
    m.append(tail);
    m
}

/// Rewrites the config of an API profile into the canonical API config;
/// profiles that use the account login are left as they are.
pub fn ensure_api_profile_files(profile: &mut Profile) -> (r: Result<(), String>)
    ensures
        old(profile).codex_system != CodexSystem::Api ==> r is Ok && *final(profile) == *old(
            profile,
        ),
        old(profile).codex_system == CodexSystem::Api ==> match api_profile_problem(
            old(profile).name@,
            opt_view(old(profile).config_toml),
            opt_view(old(profile).auth_json),
        ) {
            Some(msg) => r matches Err(e) && e@ == msg && *final(profile) == *old(profile),
            None => r is Ok && (final(profile).config_toml matches Some(c) && rewritten_api_text(
                c@,
                opt_view(old(profile).config_toml)->0,
            )) && final(profile).id == old(profile).id
                && final(profile).workspace_id == old(profile).workspace_id && final(profile).name
                == old(profile).name && final(profile).kind == old(profile).kind
                && final(profile).notes == old(profile).notes && final(profile).created_at
                == old(profile).created_at && final(profile).updated_at == old(
                profile,
            ).updated_at && final(profile).auth_json == old(profile).auth_json
                && final(profile).codex_system == old(profile).codex_system,
        },
{
    if profile.codex_system != CodexSystem::Api {
        return Ok(());
    }
    if !auth_has_api_key(&profile.auth_json) {
        return Err(
            named_message("API Key 档案「", &profile.name, "」没有写入 OPENAI_API_KEY，请重新填写 Key 后创建。"),
        );
    }
    let config = match &profile.config_toml {
        Some(c) => c.clone(),
        None => {
            return Err(named_message("API Key 档案「", &profile.name, "」缺少 config.toml，请重新创建。"));
        },
    };
    let some_config = Some(config.clone());
    let model = text_or(extract_toml_value(&some_config, "model"), "gpt-5.5");
    let review_model = match extract_toml_value(&some_config, "review_model") {
        Some(v) => v,
        None => model.clone(),
    };
    let effort = text_or(extract_toml_value(&some_config, "model_reasoning_effort"), "xhigh");
    let base_url = match extract_base_url(&some_config) {
        Some(u) => u,
        None => {
            return Err(named_message("API Key 档案「", &profile.name, "」缺少 Base URL，请重新创建。"));
        },
    };
    let base_url = trim_api_version_suffix(base_url.as_str());
    let text = proxy_api_config(model.as_str(), review_model.as_str(), effort.as_str(), base_url.as_str());
    proof {
        assert(opt_view(some_config) == opt_view(profile.config_toml));
    }
    profile.config_toml = Some(text);
    Ok(())
}

/// A lowercase hexadecimal digit.
pub open spec fn lower_hex_digit(c: char) -> bool {
    ('0' <= c && c <= '9') || ('a' <= c && c <= 'f')
}

/// The text of a version-4 UUID in hyphenated lowercase form: 36
/// characters, hyphens at 8, 13, 18 and 23, lowercase hex digits elsewhere,
/// the version digit `4` at 14 and a variant digit `8`, `9`, `a` or `b` at
/// 19.
pub open spec fn uuid_v4_text(s: Seq<char>) -> bool {
    &&& s.len() == 36
    &&& forall|i: int|
        0 <= i < 36 ==> if i == 8 || i == 13 || i == 18 || i == 23 {
            #[trigger] s[i] == '-'
        } else {
            lower_hex_digit(s[i])
        }
    &&& s[14] == '4'
    &&& (s[19] == '8' || s[19] == '9' || s[19] == 'a' || s[19] == 'b')
}

/// `Uuid::new_v4().to_string()`: a random UUID whose version bits are set to
/// 4 and variant bits to RFC 4122, shown hyphenated in lowercase (uuid's
/// `Display` writes `LowerHex` of the hyphenated form). Which UUID comes
/// back is left open: it rests on the system's random source.
#[verifier::external_body]
pub(crate) fn new_uuid() -> (r: String)
    ensures
        uuid_v4_text(r@),
{
    uuid::Uuid::new_v4().to_string()
}

/// Whether two optional texts are equal.
pub fn opt_string_eq(a: &Option<String>, b: &Option<String>) -> (r: bool)
    ensures
        r == (opt_view(*a) == opt_view(*b)),
{
    match (a, b) {
        (Some(x), Some(y)) => crate::config_text::vec_eq(&chars_of(x.as_str()), &chars_of(y.as_str())),
        (None, None) => true,
        _ => false,
    }
}

/// A proxy profile that uses the account login but holds only an API key
/// is moved to the API setup.
pub open spec fn migrates_to_api(p: Profile) -> bool {
    p.kind == ProfileKind::ProxyApiKey && p.codex_system == CodexSystem::Account && auth_api_key(
        opt_view(p.auth_json),
    ) && !auth_login_tokens(opt_view(p.auth_json))
}

/// The setup a profile uses once normalised.
pub open spec fn system_after(p: Profile) -> CodexSystem {
    if migrates_to_api(p) {
        CodexSystem::Api
    } else {
        p.codex_system
    }
}

/// Why a profile cannot be normalised, if it cannot.
pub open spec fn normalize_problem(p: Profile) -> Option<Seq<char>> {
    if system_after(p) == CodexSystem::Api {
        api_profile_problem(p.name@, opt_view(p.config_toml), opt_view(p.auth_json))
    } else {
        None
    }
}

/// `q` is `p` normalised: a workspace id filled in when there was none, the
/// setup migrated, and the config of an API profile rewritten; the rest
/// kept.
pub open spec fn normalized(p: Profile, q: Profile) -> bool {
    &&& q.id == p.id
    &&& q.name == p.name
    &&& q.kind == p.kind
    &&& q.notes == p.notes
    &&& q.created_at == p.created_at
    &&& q.updated_at == p.updated_at
    &&& q.auth_json == p.auth_json
    &&& q.codex_system == system_after(p)
    &&& q.workspace_id@.len() > 0
    &&& (p.workspace_id@.len() > 0 ==> q.workspace_id == p.workspace_id)
    &&& (p.workspace_id@.len() == 0 ==> uuid_v4_text(q.workspace_id@))
    &&& if system_after(p) == CodexSystem::Api {
        q.config_toml matches Some(c) && rewritten_api_text(c@, opt_view(p.config_toml)->0)
    } else {
        q.config_toml == p.config_toml
    }
}

/// Whether normalising changed something that must be saved.
pub open spec fn normalize_changed(p: Profile, q: Profile) -> bool {
    p.workspace_id@.len() == 0 || migrates_to_api(p) || opt_view(q.config_toml) != opt_view(
        p.config_toml,
    )
}

/// Normalises a loaded profile; tells whether it changed.
pub fn normalize_profile(profile: &mut Profile) -> (r: Result<bool, String>)
    ensures
        match r {
            Ok(changed) => normalize_problem(*old(profile)) is None && normalized(
                *old(profile),
                *final(profile),
            ) && changed == normalize_changed(*old(profile), *final(profile)),
            Err(e) => normalize_problem(*old(profile)) == Some(e@),
        },
{
    let ghost p0 = *profile;
    let mut changed = false;
    if profile.workspace_id.as_str().is_empty() {
        profile.workspace_id = new_uuid();
        changed = true;
    }
    if profile.kind == ProfileKind::ProxyApiKey && profile.codex_system == CodexSystem::Account
        && auth_has_api_key(&profile.auth_json) && !auth_has_login_tokens(&profile.auth_json) {
        profile.codex_system = CodexSystem::Api;
        changed = true;
    }
    if profile.codex_system == CodexSystem::Api {
        let before = match &profile.config_toml {
            Some(c) => Some(c.clone()),
            None => None,
        };
        ensure_api_profile_files(profile)?;
        if !opt_string_eq(&profile.config_toml, &before) {
            changed = true;
        }
    }
    Ok(changed)
}

/// Normalises every profile of a loaded store, stopping at the first that
/// cannot be; tells whether anything changed.
pub fn normalize_store(store: &mut Store) -> (r: Result<bool, String>)
    ensures
        match r {
            Ok(changed) => {
                &&& final(store).active_profile_id == old(store).active_profile_id
                &&& final(store).profiles@.len() == old(store).profiles@.len()
                &&& forall|i: int|
                    0 <= i < old(store).profiles@.len() ==> normalize_problem(
                        #[trigger] old(store).profiles@[i],
                    ) is None
                &&& forall|i: int|
                    0 <= i < old(store).profiles@.len() ==> normalized(
                        #[trigger] old(store).profiles@[i],
                        final(store).profiles@[i],
                    )
                &&& changed == exists|i: int|
                    0 <= i < old(store).profiles@.len() && normalize_changed(
                        #[trigger] old(store).profiles@[i],
                        final(store).profiles@[i],
                    )
            },
            Err(e) => exists|i: int|
                0 <= i < old(store).profiles@.len() && normalize_problem(
                    #[trigger] old(store).profiles@[i],
                ) == Some(e@) && forall|j: int|
                    0 <= j < i ==> normalize_problem(#[trigger] old(store).profiles@[j]) is None,
        },
{
    let ghost ps = store.profiles@;
    let mut rest: Vec<Profile> = Vec::new();
    std::mem::swap(&mut rest, &mut store.profiles);
    let mut out: Vec<Profile> = Vec::new();
    let mut changed = false;
    let n = rest.len();
    while rest.len() > 0
        invariant
            ps == old(store).profiles@,
            ps.len() == n,
            out@.len() + rest@.len() == n,
            rest@ == ps.skip(out@.len() as int),
            forall|i: int| 0 <= i < out@.len() ==> normalized(#[trigger] ps[i], out@[i]),
            forall|i: int| 0 <= i < out@.len() ==> normalize_problem(#[trigger] ps[i]) is None,
            changed == exists|i: int|
                0 <= i < out@.len() && normalize_changed(#[trigger] ps[i], out@[i]),
        decreases rest@.len(),
    {
        let mut p = rest.remove(0);
        let k = out.len();
        assert(p == ps[k as int]);
        match normalize_profile(&mut p) {
            Ok(c) => {
                let ghost before = out@;
                out.push(p);
                proof {
                    assert(rest@ =~= ps.skip(out@.len() as int));
                    if c {
                        assert(normalize_changed(ps[k as int], out@[k as int]));
                    }
                    assert forall|i: int| 0 <= i < out@.len() implies normalized(
                        #[trigger] ps[i],
                        out@[i],
                    ) by {
                        if i < k {
                            assert(out@[i] == before[i]);
                        }
                    }
                    assert(normalize_problem(ps[k as int]) is None);
                    if changed || c {
                        if c {
                            assert(0 <= k < out@.len() && normalize_changed(ps[k as int], out@[k as int]));
                        } else {
                            let j = choose|j: int|
                                0 <= j < before.len() && normalize_changed(#[trigger] ps[j], before[j]);
                            assert(out@[j] == before[j]);
                        }
                    } else {
                        assert forall|j: int| 0 <= j < out@.len() implies !normalize_changed(
                            #[trigger] ps[j],
                            out@[j],
                        ) by {
                            if j < k {
                                assert(out@[j] == before[j]);
                            }
                        }
                    }
                }
                changed = changed || c;
            },
            Err(e) => {
                assert(k < n);
                assert(normalize_problem(ps[k as int]) == Some(e@));
                assert(forall|j: int| 0 <= j < k ==> normalize_problem(#[trigger] ps[j]) is None);
                return Err(e);
            },
        }
    }
    store.profiles = out;
    Ok(changed)
}

/// The first profile that satisfies `f`.
#[verifier::opaque]
pub open spec fn first_where(ps: Seq<Profile>, f: spec_fn(Profile) -> bool) -> Option<int> {
    if exists|i: int| 0 <= i < ps.len() && f(ps[i]) {
        Some(
            choose|i: int|
                0 <= i < ps.len() && f(ps[i]) && forall|j: int| 0 <= j < i ==> !f(ps[j]),
        )
    } else {
        None
    }
}

proof fn lemma_first_where_at(ps: Seq<Profile>, f: spec_fn(Profile) -> bool, i: int)
    requires
        0 <= i < ps.len(),
        f(ps[i]),
        forall|j: int| 0 <= j < i ==> !f(ps[j]),
    ensures
        first_where(ps, f) == Some(i),
{
    reveal(first_where);
    let c = choose|k: int| 0 <= k < ps.len() && f(ps[k]) && forall|j: int| 0 <= j < k ==> !f(ps[j]);
    if c < i {
        assert(!f(ps[c]));
    } else if c > i {
        assert(!f(ps[i]));
    }
}

proof fn lemma_first_where_none(ps: Seq<Profile>, f: spec_fn(Profile) -> bool)
    requires
        forall|j: int| 0 <= j < ps.len() ==> !f(ps[j]),
    ensures
        first_where(ps, f) is None,
{
    reveal(first_where);
}

/// The profile has the id.
pub open spec fn has_id(id: Seq<char>) -> spec_fn(Profile) -> bool {
    |p: Profile| p.id@ == id
}

/// The profile's files have the given fingerprints.
pub open spec fn has_fingerprints(cfg: Option<Seq<char>>, auth: Option<Seq<char>>) -> spec_fn(
    Profile,
) -> bool {
    |p: Profile|
        crate::digest::opt_fingerprint(opt_view(p.config_toml)) == cfg
            && crate::digest::opt_fingerprint(opt_view(p.auth_json)) == auth
}

/// The position of the active profile: the one recorded as active when it
/// still exists, else the first whose files have the fingerprints of the
/// current Codex files.
pub open spec fn active_index(
    store: Store,
    config: Option<Seq<char>>,
    auth: Option<Seq<char>>,
) -> Option<int> {
    let by_files = first_where(
        store.profiles@,
        has_fingerprints(
            crate::digest::opt_fingerprint(config),
            crate::digest::opt_fingerprint(auth),
        ),
    );
    match store.active_profile_id {
        Some(a) => match first_where(store.profiles@, has_id(a@)) {
            Some(i) => Some(i),
            None => by_files,
        },
        None => by_files,
    }
}

/// Whether two texts are equal.
pub fn str_eq(a: &str, b: &str) -> (r: bool)
    ensures
        r == (a@ == b@),
{
    crate::config_text::vec_eq(&chars_of(a), &chars_of(b))
}

/// The position of the first profile with the id.
pub fn find_profile_index(store: &Store, id: &str) -> (r: Option<usize>)
    ensures
        match r {
            Some(i) => first_where(store.profiles@, has_id(id@)) == Some(i as int) && i
                < store.profiles@.len(),
            None => first_where(store.profiles@, has_id(id@)) is None,
        },
{
    let mut i: usize = 0;
    while i < store.profiles.len()
        invariant
            i <= store.profiles@.len(),
            forall|j: int| 0 <= j < i ==> !has_id(id@)(store.profiles@[j]),
        decreases store.profiles@.len() - i,
    {
        if str_eq(store.profiles[i].id.as_str(), id) {
            proof {
                lemma_first_where_at(store.profiles@, has_id(id@), i as int);
            }
            return Some(i);
        }
        i = i + 1;
    }
    proof {
        lemma_first_where_none(store.profiles@, has_id(id@));
    }
    None
}

fn find_by_fingerprints(store: &Store, cfg: &Option<String>, auth: &Option<String>) -> (r: Option<
    usize,
>)
    ensures
        match r {
            Some(i) => first_where(
                store.profiles@,
                has_fingerprints(opt_view(*cfg), opt_view(*auth)),
            ) == Some(i as int) && i < store.profiles@.len(),
            None => first_where(
                store.profiles@,
                has_fingerprints(opt_view(*cfg), opt_view(*auth)),
            ) is None,
        },
{
    let f = Ghost(has_fingerprints(opt_view(*cfg), opt_view(*auth)));
    let mut i: usize = 0;
    while i < store.profiles.len()
        invariant
            i <= store.profiles@.len(),
            f@ == has_fingerprints(opt_view(*cfg), opt_view(*auth)),
            forall|j: int| 0 <= j < i ==> !f@(store.profiles@[j]),
        decreases store.profiles@.len() - i,
    {
        let a = crate::digest::short_hash(&store.profiles[i].config_toml);
        let b = crate::digest::short_hash(&store.profiles[i].auth_json);
        if opt_string_eq(&a, cfg) && opt_string_eq(&b, auth) {
            proof {
                lemma_first_where_at(store.profiles@, f@, i as int);
            }
            return Some(i);
        }
        i = i + 1;
    }
    proof {
        lemma_first_where_none(store.profiles@, f@);
    }
    None
}

proof fn lemma_first_where_cases(ps: Seq<Profile>, f: spec_fn(Profile) -> bool)
    ensures
        first_where(ps, f) matches Some(i) ==> 0 <= i < ps.len() && f(ps[i]) && forall|j: int|
            0 <= j < i ==> !f(ps[j]),
        first_where(ps, f) is None ==> forall|j: int| 0 <= j < ps.len() ==> !f(ps[j]),
{
    reveal(first_where);
    if first_where(ps, f) is Some {
        lemma_first_where_some(ps, f);
    }
}

/// The profile in use is the one recorded as active when a profile has
/// that id; otherwise it is the first whose config.toml and auth.json both
/// have the fingerprints of the current files (a profile logged in to
/// another account with the same config is not taken), and there is none
/// when no profile matches both.
pub proof fn law_active_profile_matches_both_files(
    store: Store,
    config: Option<Seq<char>>,
    auth: Option<Seq<char>>,
)
    ensures
        match active_index(store, config, auth) {
            Some(i) => 0 <= i < store.profiles@.len() && ((store.active_profile_id matches Some(
                a,
            ) && store.profiles@[i].id@ == a@) || (crate::digest::opt_fingerprint(
                opt_view(store.profiles@[i].config_toml),
            ) == crate::digest::opt_fingerprint(config) && crate::digest::opt_fingerprint(
                opt_view(store.profiles@[i].auth_json),
            ) == crate::digest::opt_fingerprint(auth))),
            None => true,
        },
        (forall|j: int|
            0 <= j < store.profiles@.len() ==> !(store.active_profile_id matches Some(a)
                && #[trigger] store.profiles@[j].id@ == a@)) ==> match active_index(
            store,
            config,
            auth,
        ) {
            Some(i) => crate::digest::opt_fingerprint(opt_view(store.profiles@[i].config_toml))
                == crate::digest::opt_fingerprint(config) && crate::digest::opt_fingerprint(
                opt_view(store.profiles@[i].auth_json),
            ) == crate::digest::opt_fingerprint(auth) && forall|j: int|
                0 <= j < i ==> !(crate::digest::opt_fingerprint(
                    opt_view(#[trigger] store.profiles@[j].config_toml),
                ) == crate::digest::opt_fingerprint(config) && crate::digest::opt_fingerprint(
                    opt_view(store.profiles@[j].auth_json),
                ) == crate::digest::opt_fingerprint(auth)),
            None => forall|j: int|
                0 <= j < store.profiles@.len() ==> !(crate::digest::opt_fingerprint(
                    opt_view(#[trigger] store.profiles@[j].config_toml),
                ) == crate::digest::opt_fingerprint(config) && crate::digest::opt_fingerprint(
                    opt_view(store.profiles@[j].auth_json),
                ) == crate::digest::opt_fingerprint(auth)),
        },
{
    let fc = crate::digest::opt_fingerprint(config);
    let fa = crate::digest::opt_fingerprint(auth);
    let f = has_fingerprints(fc, fa);
    lemma_first_where_cases(store.profiles@, f);
    match store.active_profile_id {
        Some(a) => {
            lemma_first_where_cases(store.profiles@, has_id(a@));
        },
        None => {},
    }
}

/// The profile in use: the one recorded as active when it still exists,
/// else the first whose files match the current Codex files.
pub fn active_profile<'a>(
    store: &'a Store,
    current_config: &Option<String>,
    current_auth: &Option<String>,
) -> (r: Option<&'a Profile>)
    ensures
        match active_index(*store, opt_view(*current_config), opt_view(*current_auth)) {
            Some(i) => r == Some(&store.profiles@[i]),
            None => r is None,
        },
{
    if let Some(active_id) = &store.active_profile_id {
        if let Some(i) = find_profile_index(store, active_id.as_str()) {
            return Some(&store.profiles[i]);
        }
    }
    let cfg = crate::digest::short_hash(current_config);
    let auth = crate::digest::short_hash(current_auth);
    match find_by_fingerprints(store, &cfg, &auth) {
        Some(i) => Some(&store.profiles[i]),
        None => None,
    }
}

/// The profiles without those that have the id.
pub open spec fn without_id(ps: Seq<Profile>, id: Seq<char>) -> Seq<Profile>
    decreases ps.len(),
{
    if ps.len() == 0 {
        seq![]
    } else if ps[0].id@ == id {
        without_id(ps.drop_first(), id)
    } else {
        seq![ps[0]] + without_id(ps.drop_first(), id)
    }
}

proof fn lemma_without_id_push(ps: Seq<Profile>, p: Profile, id: Seq<char>)
    ensures
        without_id(ps.push(p), id) == without_id(ps, id) + (if p.id@ == id {
            Seq::<Profile>::empty()
        } else {
            seq![p]
        }),
    decreases ps.len(),
{
    let pp = ps.push(p);
    let tail: Seq<Profile> = if p.id@ == id {
        Seq::<Profile>::empty()
    } else {
        seq![p]
    };
    if ps.len() == 0 {
        assert(pp.drop_first() =~= Seq::<Profile>::empty());
        assert(pp[0] == p);
        assert(without_id(pp.drop_first(), id) == Seq::<Profile>::empty());
        assert(Seq::<Profile>::empty() + tail =~= tail);
        assert(tail + Seq::<Profile>::empty() =~= tail);
    } else {
        assert(pp.drop_first() =~= ps.drop_first().push(p));
        assert(pp[0] == ps[0]);
        lemma_without_id_push(ps.drop_first(), p, id);
        if ps[0].id@ != id {
            assert(seq![ps[0]] + (without_id(ps.drop_first(), id) + tail) =~= (seq![ps[0]]
                + without_id(ps.drop_first(), id)) + tail);
        }
    }
}

/// Removes the profiles with the id; forgets the active profile when it was
/// that one.
pub fn delete_profile(store: &mut Store, id: &str) -> (r: Result<(), String>)
    ensures
        (exists|i: int|
            0 <= i < old(store).profiles@.len() && #[trigger] old(store).profiles@[i].id@ == id@)
            <==> r is Ok,
        r matches Err(e) ==> e@ == "找不到指定档案"@,
        r is Ok ==> final(store).profiles@ == without_id(old(store).profiles@, id@)
            && final(store).active_profile_id == (if old(store).active_profile_id matches Some(a)
            && a@ == id@ {
            None
        } else {
            old(store).active_profile_id
        }),
{
    let ghost ps = store.profiles@;
    let mut rest: Vec<Profile> = Vec::new();
    std::mem::swap(&mut rest, &mut store.profiles);
    let mut kept: Vec<Profile> = Vec::new();
    let mut found = false;
    let n = rest.len();
    let mut k: usize = 0;
    assert(ps.take(0) =~= Seq::<Profile>::empty());
    while rest.len() > 0
        invariant
            ps == old(store).profiles@,
            k + rest@.len() == n,
            n == ps.len(),
            rest@ == ps.skip(k as int),
            kept@ == without_id(ps.take(k as int), id@),
            found == exists|i: int| 0 <= i < k && #[trigger] ps[i].id@ == id@,
        decreases rest@.len(),
    {
        let p = rest.remove(0);
        assert(p == ps[k as int]);
        proof {
            assert(ps.take(k + 1) =~= ps.take(k as int).push(p));
            lemma_without_id_push(ps.take(k as int), p, id@);
        }
        if str_eq(p.id.as_str(), id) {
            found = true;
            assert(kept@ + Seq::<Profile>::empty() =~= kept@);
        } else {
            kept.push(p);
        }
        k = k + 1;
        assert(rest@ =~= ps.skip(k as int));
    }
    assert(ps.take(n as int) =~= ps);
    store.profiles = kept;
    if !found {
        return Err(String::from_str("找不到指定档案"));
    }
    let clear = match &store.active_profile_id {
        Some(a) => str_eq(a.as_str(), id),
        None => false,
    };
    if clear {
        store.active_profile_id = None;
    }
    Ok(())
}

/// The profile to switch to, by id.
pub fn switch_target(store: &Store, id: &str) -> (r: Result<usize, String>)
    ensures
        match first_where(store.profiles@, has_id(id@)) {
            Some(i) => r == Ok::<usize, String>(i as usize) && i < store.profiles@.len(),
            None => r matches Err(e) && e@ == "找不到指定档案"@,
        },
{
    match find_profile_index(store, id) {
        Some(i) => Ok(i),
        None => Err(String::from_str("找不到指定档案")),
    }
}

/// Records the profile at a position as the active one.
pub fn mark_active(store: &mut Store, i: usize)
    requires
        i < old(store).profiles@.len(),
    ensures
        final(store).profiles == old(store).profiles,
        final(store).active_profile_id == Some(old(store).profiles@[i as int].id),
{
    let id = store.profiles[i].id.clone();
    store.active_profile_id = Some(id);
}

/// The message after a switch.
pub open spec fn switched_message() -> Seq<char> {
    "已切换 Codex 档案；正在使用的 Codex App/CLI 可能需要重启后完全生效。"@
}

/// Which of the Codex files may be opened: only `config.toml` and `auth.json`.
pub fn openable_codex_file(name: &str) -> (r: Result<String, String>)
    ensures
        (name@ == "config.toml"@ || name@ == "auth.json"@) ==> (r matches Ok(n) && n@ == name@),
        !(name@ == "config.toml"@ || name@ == "auth.json"@) ==> (r matches Err(e) && e@
            == "只能打开 Codex 的 config.toml 或 auth.json"@),
{
    if str_eq(name, "config.toml") || str_eq(name, "auth.json") {
        Ok(String::from_str(name))
    } else {
        Err(String::from_str("只能打开 Codex 的 config.toml 或 auth.json"))
    }
}

/// A profile that was switched to is the profile in use, whatever the
/// current Codex files are.
pub proof fn law_switched_profile_is_active(
    store: Store,
    id: Seq<char>,
    config: Option<Seq<char>>,
    auth: Option<Seq<char>>,
)
    requires
        first_where(store.profiles@, has_id(id)) is Some,
    ensures
        ({
            let i = first_where(store.profiles@, has_id(id))->0;
            let switched = Store {
                active_profile_id: Some(store.profiles@[i].id),
                profiles: store.profiles,
            };
            active_index(switched, config, auth) == Some(i)
        }),
{
    let ps = store.profiles@;
    lemma_first_where_some(ps, has_id(id));
    let i = first_where(ps, has_id(id))->0;
    assert(has_id(ps[i].id@) =~= has_id(id));
    lemma_first_where_at(ps, has_id(ps[i].id@), i);
}

proof fn lemma_first_where_some(ps: Seq<Profile>, f: spec_fn(Profile) -> bool)
    requires
        first_where(ps, f) is Some,
    ensures
        ({
            let i = first_where(ps, f)->0;
            &&& 0 <= i < ps.len()
            &&& f(ps[i])
            &&& forall|j: int| 0 <= j < i ==> !f(#[trigger] ps[j])
        }),
{
    reveal(first_where);
    if exists|i: int| 0 <= i < ps.len() && f(ps[i]) {
        let w = choose|i: int| 0 <= i < ps.len() && f(ps[i]);
        lemma_least_index(ps, f, w);
    }
}

proof fn lemma_least_index(ps: Seq<Profile>, f: spec_fn(Profile) -> bool, w: int)
    requires
        0 <= w < ps.len(),
        f(ps[w]),
    ensures
        exists|i: int| 0 <= i < ps.len() && f(ps[i]) && forall|j: int| 0 <= j < i ==> !f(ps[j]),
    decreases w,
{
    if exists|j: int| 0 <= j < w && f(ps[j]) {
        let v = choose|j: int| 0 <= j < w && f(ps[j]);
        lemma_least_index(ps, f, v);
    } else {
        assert(forall|j: int| 0 <= j < w ==> !f(ps[j]));
    }
}

/// No profile with a deleted id remains.
pub proof fn law_deleted_id_is_gone(ps: Seq<Profile>, id: Seq<char>)
    ensures
        forall|k: int| 0 <= k < without_id(ps, id).len() ==> #[trigger] without_id(ps, id)[k].id@ != id,
        first_where(without_id(ps, id), has_id(id)) is None,
    decreases ps.len(),
{
    if ps.len() > 0 {
        law_deleted_id_is_gone(ps.drop_first(), id);
        let rest = without_id(ps.drop_first(), id);
        if ps[0].id@ != id {
            assert forall|k: int| 0 <= k < without_id(ps, id).len() implies #[trigger] without_id(
                ps,
                id,
            )[k].id@ != id by {
                if k > 0 {
                    assert(without_id(ps, id)[k] == rest[k - 1]);
                }
            }
        }
    }
    lemma_first_where_none(without_id(ps, id), has_id(id));
}

/// Deleting an id keeps every profile with another id.
pub proof fn law_delete_keeps_others(ps: Seq<Profile>, id: Seq<char>, p: Profile)
    requires
        ps.contains(p),
        p.id@ != id,
    ensures
        without_id(ps, id).contains(p),
    decreases ps.len(),
{
    let w = without_id(ps, id);
    if ps[0] == p {
        assert(w[0] == p);
    } else {
        let k = choose|k: int| 0 <= k < ps.len() && ps[k] == p;
        assert(ps.drop_first()[k - 1] == p);
        law_delete_keeps_others(ps.drop_first(), id, p);
        let rest = without_id(ps.drop_first(), id);
        let m = choose|m: int| 0 <= m < rest.len() && rest[m] == p;
        if ps[0].id@ == id {
            assert(w[m] == p);
        } else {
            assert(w[m + 1] == p);
        }
    }
}

/// Normalising settles a profile's setup and workspace id: once normalised,
/// a profile has a workspace id and no longer moves to the API setup, so
/// normalising again keeps both.
pub proof fn law_normalizing_settles_setup(p: Profile, q: Profile, r: Profile)
    requires
        normalized(p, q),
        normalized(q, r),
    ensures
        q.workspace_id@.len() > 0,
        !migrates_to_api(q),
        r.workspace_id == q.workspace_id,
        r.codex_system == q.codex_system,
{
}

/// A profile that normalises without a problem comes out with a workspace
/// id; when it uses the API setup it holds an API key; and a key-only proxy
/// profile (an API key and no login tokens) comes out on the API setup.
pub proof fn law_loaded_profiles_are_usable(p: Profile, q: Profile)
    requires
        normalize_problem(p) is None,
        normalized(p, q),
    ensures
        q.workspace_id@.len() > 0,
        q.codex_system == CodexSystem::Api ==> auth_api_key(opt_view(q.auth_json)),
        (q.kind == ProfileKind::ProxyApiKey && auth_api_key(opt_view(q.auth_json))
            && !auth_login_tokens(opt_view(q.auth_json))) ==> q.codex_system == CodexSystem::Api,
{
}

} // verus!
