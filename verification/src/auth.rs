//! What an `auth.json` says: whether it holds an API key or ChatGPT login
//! tokens, and the account named in the login token.
use vstd::prelude::*;
use crate::text::{chars_of, first_in_set, first_in_set_from, string_of, sub_vec, trim_ws, CharSet};
use crate::config_text::opt_view;

verus! {

#[verifier::external_type_specification]
#[verifier::external_body]
pub struct ExJsonValue(serde_json::Value);

#[verifier::external_type_specification]
#[verifier::external_body]
pub struct ExJsonError(serde_json::Error);

#[verifier::external_type_specification]
#[verifier::external_body]
pub struct ExDecodeError(base64::DecodeError);

/// A path of object keys from the root of a JSON value.
pub type JsonPath = Seq<Seq<char>>;

/// What a JSON value holds: every path of object keys that leads from the
/// value to a member (the empty path leads to the value itself), mapped to
/// the member's text when the member is a string and to `None` otherwise.
pub uninterp spec fn json_tree(v: serde_json::Value) -> Map<JsonPath, Option<Seq<char>>>;

/// What `serde_json::from_str` makes of a text: the tree of the value, or
/// `None` when the text is not JSON.
pub uninterp spec fn json_text(raw: Seq<char>) -> Option<Map<JsonPath, Option<Seq<char>>>>;

/// What `serde_json::from_slice` makes of bytes: the tree of the value, or
/// `None` when the bytes are not JSON.
pub uninterp spec fn json_bytes(raw: Seq<u8>) -> Option<Map<JsonPath, Option<Seq<char>>>>;

/// What the URL-safe base64 engine without padding decodes a text to, or
/// `None` when it rejects the text.
pub uninterp spec fn base64url_decode(s: Seq<char>) -> Option<Seq<u8>>;

/// The part of a tree under a path prefix.
pub open spec fn subtree(m: Map<JsonPath, Option<Seq<char>>>, pre: JsonPath) -> Map<
    JsonPath,
    Option<Seq<char>>,
> {
    Map::new(|p: JsonPath| m.contains_key(pre + p), |p: JsonPath| m[pre + p])
}

/// The string at a path, if the path leads to a string.
pub open spec fn tree_str(m: Map<JsonPath, Option<Seq<char>>>, path: JsonPath) -> Option<Seq<char>> {
    if m.contains_key(path) {
        m[path]
    } else {
        None
    }
}

/// `serde_json::from_str::<Value>`: parses a JSON text.
#[verifier::external_body]
fn json_from_str(raw: &str) -> (r: Result<serde_json::Value, serde_json::Error>)
    ensures
        match r {
            Ok(v) => json_text(raw@) == Some(json_tree(v)),
            Err(_) => json_text(raw@) is None,
        },
{
    serde_json::from_str::<serde_json::Value>(raw)
}

/// `serde_json::from_slice::<Value>`: parses JSON bytes.
#[verifier::external_body]
fn json_from_slice(raw: &[u8]) -> (r: Result<serde_json::Value, serde_json::Error>)
    ensures
        match r {
            Ok(v) => json_bytes(raw@) == Some(json_tree(v)),
            Err(_) => json_bytes(raw@) is None,
        },
{
    serde_json::from_slice::<serde_json::Value>(raw)
}

/// `Value::get` with a key: the member of an object under that key; `None`
/// for a missing key and for values that are not objects.
#[verifier::external_body]
fn json_get<'a>(v: &'a serde_json::Value, key: &str) -> (r: Option<&'a serde_json::Value>)
    ensures
        r is Some <==> json_tree(*v).contains_key(seq![key@]),
        r matches Some(c) ==> json_tree(*c) == subtree(json_tree(*v), seq![key@]),
        r is None ==> forall|p: JsonPath| !json_tree(*v).contains_key(seq![key@] + p),
{
    v.get(key)
}

/// `Value::as_str`: the text of a string value.
#[verifier::external_body]
fn json_as_str(v: &serde_json::Value) -> (r: Option<String>)
    ensures
        opt_view(r) == tree_str(json_tree(*v), Seq::<Seq<char>>::empty()),
{
    v.as_str().map(|s| s.to_string())
}

/// `URL_SAFE_NO_PAD.decode`: decodes URL-safe base64 without padding.
#[verifier::external_body]
fn base64url_nopad_decode(s: &str) -> (r: Result<Vec<u8>, base64::DecodeError>)
    ensures
        match r {
            Ok(b) => base64url_decode(s@) == Some(b@),
            Err(_) => base64url_decode(s@) is None,
        },
{
    base64::Engine::decode(&base64::engine::general_purpose::URL_SAFE_NO_PAD, s)
}

proof fn lemma_subtree_compose(m: Map<JsonPath, Option<Seq<char>>>, a: JsonPath, b: JsonPath)
    ensures
        subtree(subtree(m, a), b) == subtree(m, a + b),
{
    assert forall|p: JsonPath| #![auto] (a + b) + p =~= a + (b + p) by {}
    assert(subtree(subtree(m, a), b) =~= subtree(m, a + b));
}

pub open spec fn key_path(keys: Seq<&str>) -> JsonPath {
    keys.map_values(|k: &str| k@)
}

/// The string found by following object keys from a value.
pub fn string_at(value: &serde_json::Value, keys: &[&str]) -> (r: Option<String>)
    ensures
        opt_view(r) == tree_str(json_tree(*value), key_path(keys@)),
{
    let mut cursor = value;
    let mut i: usize = 0;
    proof {
        assert forall|p: JsonPath| #![auto] Seq::<Seq<char>>::empty() + p =~= p by {}
        assert(subtree(json_tree(*value), Seq::<Seq<char>>::empty()) =~= json_tree(*value));
        assert(key_path(keys@).take(0) =~= Seq::<Seq<char>>::empty());
    }
    while i < keys.len()
        invariant
            i <= keys@.len(),
            json_tree(*cursor) == subtree(json_tree(*value), key_path(keys@).take(i as int)),
        decreases keys@.len() - i,
    {
        let k = keys[i];
        let pre = Ghost(key_path(keys@).take(i as int));
        match json_get(cursor, k) {
            Some(c) => {
                proof {
                    lemma_subtree_compose(json_tree(*value), pre@, seq![k@]);
                    assert(pre@ + seq![k@] =~= key_path(keys@).take(i + 1));
                }
                cursor = c;
            },
            None => {
                proof {
                    let full = key_path(keys@);
                    let rest = full.skip(i + 1);
                    assert(full =~= pre@ + (seq![k@] + rest));
                    assert(!subtree(json_tree(*value), pre@).contains_key(seq![k@] + rest));
                }
                return None;
            },
        }
        i = i + 1;
    }
    proof {
        assert(key_path(keys@).take(keys@.len() as int) =~= key_path(keys@));
        assert(Seq::<Seq<char>>::empty() + Seq::<Seq<char>>::empty() =~= Seq::<
            Seq<char>,
        >::empty());
        assert(key_path(keys@) + Seq::<Seq<char>>::empty() =~= key_path(keys@));
    }
    json_as_str(cursor)
}

/// Whether following object keys from a value reaches a member (the keys
/// are not empty).
pub fn has_path(value: &serde_json::Value, keys: &[&str]) -> (r: bool)
    requires
        keys@.len() > 0,
    ensures
        r == json_tree(*value).contains_key(key_path(keys@)),
{
    let mut cursor = value;
    let mut i: usize = 0;
    proof {
        assert forall|p: JsonPath| #![auto] Seq::<Seq<char>>::empty() + p =~= p by {}
        assert(subtree(json_tree(*value), Seq::<Seq<char>>::empty()) =~= json_tree(*value));
        assert(key_path(keys@).take(0) =~= Seq::<Seq<char>>::empty());
    }
    while i < keys.len()
        invariant
            i <= keys@.len(),
            i > 0 ==> json_tree(*value).contains_key(key_path(keys@).take(i as int)),
            json_tree(*cursor) == subtree(json_tree(*value), key_path(keys@).take(i as int)),
        decreases keys@.len() - i,
    {
        let k = keys[i];
        let pre = Ghost(key_path(keys@).take(i as int));
        match json_get(cursor, k) {
            Some(c) => {
                proof {
                    lemma_subtree_compose(json_tree(*value), pre@, seq![k@]);
                    assert(pre@ + seq![k@] =~= key_path(keys@).take(i + 1));
                    assert(subtree(json_tree(*value), pre@).contains_key(seq![k@]));
                }
                cursor = c;
            },
            None => {
                proof {
                    let full = key_path(keys@);
                    let rest = full.skip(i + 1);
                    assert(full =~= pre@ + (seq![k@] + rest));
                    assert(!subtree(json_tree(*value), pre@).contains_key(seq![k@] + rest));
                }
                return false;
            },
        }
        i = i + 1;
    }
    proof {
        assert(key_path(keys@).take(keys@.len() as int) =~= key_path(keys@));
    }
    true
}

/// The API key entry of an auth tree holds more than whitespace.
pub open spec fn tree_has_api_key(m: Map<JsonPath, Option<Seq<char>>>) -> bool {
    tree_str(m, seq!["OPENAI_API_KEY"@]) matches Some(k) && trim_ws(k).len() > 0
}

/// An auth tree holds ChatGPT login tokens: `tokens.id_token` or
/// `refresh_token`.
pub open spec fn tree_has_login(m: Map<JsonPath, Option<Seq<char>>>) -> bool {
    m.contains_key(seq!["tokens"@, "id_token"@]) || m.contains_key(seq!["refresh_token"@])
}

/// An `auth.json` content holds an API key.
pub open spec fn auth_api_key(auth: Option<Seq<char>>) -> bool {
    match auth {
        Some(raw) => match json_text(raw) {
            Some(m) => tree_has_api_key(m),
            None => false,
        },
        None => false,
    }
}

/// An `auth.json` content holds ChatGPT login tokens.
pub open spec fn auth_login_tokens(auth: Option<Seq<char>>) -> bool {
    match auth {
        Some(raw) => match json_text(raw) {
            Some(m) => tree_has_login(m),
            None => false,
        },
        None => false,
    }
}

/// The label of an auth file: missing, malformed, API key, ChatGPT login or
/// some other authorisation, in that order of precedence.
pub open spec fn auth_mode_label(auth: Option<Seq<char>>) -> Seq<char> {
    match auth {
        None => "未发现 auth.json"@,
        Some(raw) => match json_text(raw) {
            None => "auth.json 格式异常"@,
            Some(m) => if tree_has_api_key(m) {
                "API Key"@
            } else if tree_has_login(m) {
                "ChatGPT 登录授权"@
            } else {
                "自定义授权文件"@
            },
        },
    }
}

fn tree_api_key(value: &serde_json::Value) -> (r: bool)
    ensures
        r == tree_has_api_key(json_tree(*value)),
{
    let keys: [&str; 1] = ["OPENAI_API_KEY"];
    let k = string_at(value, &keys);
    proof {
        assert(key_path(keys@) =~= seq!["OPENAI_API_KEY"@]);
    }
    match k {
        Some(k) => {
            let cs = chars_of(k.as_str());
            let ws = CharSet::Whitespace;
            let (a, b) = crate::text::trim_range(&cs, 0, cs.len(), &ws);
            proof {
                assert(cs@.subrange(0, cs@.len() as int) =~= cs@);
            }
            b > a
        },
        None => false,
    }
}

fn tree_login(value: &serde_json::Value) -> (r: bool)
    ensures
        r == tree_has_login(json_tree(*value)),
{
    let a: [&str; 2] = ["tokens", "id_token"];
    let b: [&str; 1] = ["refresh_token"];
    proof {
        assert(key_path(a@) =~= seq!["tokens"@, "id_token"@]);
        assert(key_path(b@) =~= seq!["refresh_token"@]);
    }
    has_path(value, &a) || has_path(value, &b)
}

/// Whether an `auth.json` content holds a non-blank `OPENAI_API_KEY`.
pub fn auth_has_api_key(auth: &Option<String>) -> (r: bool)
    ensures
        r == auth_api_key(opt_view(*auth)),
{
    match auth {
        Some(raw) => match json_from_str(raw.as_str()) {
            Ok(v) => tree_api_key(&v),
            Err(_) => false,
        },
        None => false,
    }
}

/// Whether an `auth.json` content holds ChatGPT login tokens.
pub fn auth_has_login_tokens(auth: &Option<String>) -> (r: bool)
    ensures
        r == auth_login_tokens(opt_view(*auth)),
{
    match auth {
        Some(raw) => match json_from_str(raw.as_str()) {
            Ok(v) => tree_login(&v),
            Err(_) => false,
        },
        None => false,
    }
}

/// The label of the authorisation an `auth.json` content holds.
pub fn auth_mode(auth: &Option<String>) -> (r: String)
    ensures
        r@ == auth_mode_label(opt_view(*auth)),
{
    match auth {
        None => String::from_str("未发现 auth.json"),
        Some(raw) => match json_from_str(raw.as_str()) {
            Err(_) => String::from_str("auth.json 格式异常"),
            Ok(v) => if tree_api_key(&v) {
                String::from_str("API Key")
            } else if tree_login(&v) {
                String::from_str("ChatGPT 登录授权")
            } else {
                String::from_str("自定义授权文件")
            },
        },
    }
}

/// The payload segment of a JWT: the text between its first and second `.`
/// (or the end).
pub open spec fn jwt_segment(token: Seq<char>) -> Option<Seq<char>> {
    let k = first_in_set(token, CharSet::Only('.'));
    if k >= token.len() {
        None
    } else {
        let rest = token.skip((k + 1) as int);
        Some(rest.take(first_in_set(rest, CharSet::Only('.')) as int))
    }
}

/// The claims of a JWT: its payload segment, base64url-decoded and parsed
/// as JSON.
pub open spec fn jwt_claims(token: Seq<char>) -> Option<Map<JsonPath, Option<Seq<char>>>> {
    match jwt_segment(token) {
        None => None,
        Some(seg) => match base64url_decode(seg) {
            None => None,
            Some(b) => json_bytes(b),
        },
    }
}

/// The claims of a JWT.
pub fn decode_jwt_payload(token: &str) -> (r: Option<serde_json::Value>)
    ensures
        match r {
            Some(v) => jwt_claims(token@) == Some(json_tree(v)),
            None => jwt_claims(token@) is None,
        },
{
    let cs = chars_of(token);
    let dot = CharSet::Only('.');
    let k = first_in_set_from(&cs, 0, &dot);
    proof {
        assert(cs@.skip(0) =~= cs@);
    }
    if k >= cs.len() {
        return None;
    }
    let e = first_in_set_from(&cs, k + 1, &dot);
    let seg = sub_vec(&cs, k + 1, e);
    proof {
        assert(cs@.skip(k + 1).take(e - k - 1) =~= seg@);
    }
    let payload = string_of(&seg);
    let decoded = match base64url_nopad_decode(payload.as_str()) {
        Ok(b) => b,
        Err(_) => return None,
    };
    match json_from_slice(decoded.as_slice()) {
        Ok(v) => Some(v),
        Err(_) => None,
    }
}

/// The account that an `auth.json` names.
pub struct AccountInfo {
    pub email: Option<String>,
    pub name: Option<String>,
    pub plan: Option<String>,
    pub account_id: Option<String>,
}

pub struct AccountView {
    pub email: Option<Seq<char>>,
    pub name: Option<Seq<char>>,
    pub plan: Option<Seq<char>>,
    pub account_id: Option<Seq<char>>,
}

impl View for AccountInfo {
    type V = AccountView;

    open spec fn view(&self) -> AccountView {
        AccountView {
            email: opt_view(self.email),
            name: opt_view(self.name),
            plan: opt_view(self.plan),
            account_id: opt_view(self.account_id),
        }
    }
}

pub open spec fn no_account() -> AccountView {
    AccountView { email: None, name: None, plan: None, account_id: None }
}

/// The account that an auth tree names: the account id under `tokens`, and
/// the email, name and plan in the claims of `tokens.id_token`, whose
/// account id stands in when `tokens` has none.
pub open spec fn tree_account(m: Map<JsonPath, Option<Seq<char>>>) -> AccountView {
    let id0 = tree_str(m, seq!["tokens"@, "account_id"@]);
    match tree_str(m, seq!["tokens"@, "id_token"@]) {
        None => AccountView { account_id: id0, ..no_account() },
        Some(tok) => match jwt_claims(tok) {
            None => AccountView { account_id: id0, ..no_account() },
            Some(c) => AccountView {
                email: tree_str(c, seq!["email"@]),
                name: tree_str(c, seq!["name"@]),
                plan: tree_str(c, seq!["https://api.openai.com/auth"@, "chatgpt_plan_type"@]),
                account_id: if id0 is Some {
                    id0
                } else {
                    tree_str(c, seq!["https://api.openai.com/auth"@, "chatgpt_account_id"@])
                },
            },
        },
    }
}

/// The account that an `auth.json` content names; nothing when there is no
/// content or it is not JSON.
pub open spec fn auth_account(auth: Option<Seq<char>>) -> AccountView {
    match auth {
        None => no_account(),
        Some(raw) => match json_text(raw) {
            None => no_account(),
            Some(m) => tree_account(m),
        },
    }
}

/// The account that an `auth.json` content names.
pub fn account_info(auth: &Option<String>) -> (r: AccountInfo)
    ensures
        r@ == auth_account(opt_view(*auth)),
{
    let raw = match auth {
        Some(raw) => raw,
        None => return AccountInfo { email: None, name: None, plan: None, account_id: None },
    };
    let value = match json_from_str(raw.as_str()) {
        Ok(v) => v,
        Err(_) => return AccountInfo { email: None, name: None, plan: None, account_id: None },
    };
    let k_id: [&str; 2] = ["tokens", "account_id"];
    let k_tok: [&str; 2] = ["tokens", "id_token"];
    proof {
        assert(key_path(k_id@) =~= seq!["tokens"@, "account_id"@]);
        assert(key_path(k_tok@) =~= seq!["tokens"@, "id_token"@]);
    }
    let id0 = string_at(&value, &k_id);
    let mut info = AccountInfo { email: None, name: None, plan: None, account_id: id0 };
    if let Some(token) = string_at(&value, &k_tok) {
        if let Some(payload) = decode_jwt_payload(token.as_str()) {
            let k_email: [&str; 1] = ["email"];
            let k_name: [&str; 1] = ["name"];
            let k_plan: [&str; 2] = ["https://api.openai.com/auth", "chatgpt_plan_type"];
            let k_acct: [&str; 2] = ["https://api.openai.com/auth", "chatgpt_account_id"];
            proof {
                assert(key_path(k_email@) =~= seq!["email"@]);
                assert(key_path(k_name@) =~= seq!["name"@]);
                assert(key_path(k_plan@) =~= seq![
                    "https://api.openai.com/auth"@,
                    "chatgpt_plan_type"@,
                ]);
                assert(key_path(k_acct@) =~= seq![
                    "https://api.openai.com/auth"@,
                    "chatgpt_account_id"@,
                ]);
            }
            info.email = string_at(&payload, &k_email);
            info.name = string_at(&payload, &k_name);
            info.plan = string_at(&payload, &k_plan);
            if info.account_id.is_none() {
                info.account_id = string_at(&payload, &k_acct);
            }
        }
    }
    info
}

} // verus!
