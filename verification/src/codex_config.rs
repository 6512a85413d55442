//! The `config.toml` and `auth.json` contents of Codex profiles: reading the
//! base URL, turning a config into an account-mode config, and writing the
//! configs of proxy and API-key profiles.
use vstd::prelude::*;
use crate::digest::hex_digit;
use crate::text::{
    chars_of, push_char, string_of, sub_vec, trim_end, trim_end_range, trim_range, trim_ws, CharSet,
};
use crate::config_text::{
    api_base, extract_toml_value, normalize_proxy_base_url, api_provider_base_url, opt_view,
    provider_base, toml_value,
};
use crate::toml_doc::{
    doc_contains_key, doc_get, doc_new, doc_remove, doc_render, doc_set_bool, doc_set_int,
    doc_set_str, doc_set_table, doc_table_is_empty, doc_table_remove, item_as_str, item_table_get,
    no_entries, table_new, table_set_bool, table_set_implicit, table_set_str, table_set_table,
    text_at, toml_doc, toml_parse, toml_render, toml_text, with_leaf, with_table, without,
    empty_tree, below, KeyPath, TomlMap, TomlNode, toml_parsed, toml_assigned, toml_table_set,
    toml_removed, toml_entry_removed, table_assigned, table_nested, table_implicit, fresh_doc,
    fresh_table, toml_table, has_prefix,
};

verus! {

/// The base URL a config names: `openai_base_url`, else the `base_url` of
/// the table of the selected `model_provider` under `model_providers`,
/// else the first `base_url` line; when the text is not TOML, the first
/// `openai_base_url` line, else the first `base_url` line.
pub open spec fn config_base_url(raw: Option<Seq<char>>) -> Option<Seq<char>> {
    match raw {
        None => None,
        Some(r) => match toml_text(r) {
            None => match toml_value(raw, "openai_base_url"@) {
                Some(u) => Some(u),
                None => toml_value(raw, "base_url"@),
            },
            Some(m) => match text_at(m, seq!["openai_base_url"@]) {
                Some(u) => Some(u),
                None => match provider_base_url(m) {
                    Some(u) => Some(u),
                    None => toml_value(raw, "base_url"@),
                },
            },
        },
    }
}

/// The `base_url` of the selected provider's table.
pub open spec fn provider_base_url(m: TomlMap) -> Option<Seq<char>> {
    match text_at(m, seq!["model_provider"@]) {
        Some(p) => text_at(m, seq!["model_providers"@, p, "base_url"@]),
        None => None,
    }
}

proof fn lemma_below_compose(m: TomlMap, a: KeyPath, b: KeyPath)
    ensures
        below(below(m, a), b) == below(m, a + b),
{
    assert forall|p: KeyPath| #![auto] (a + b) + p =~= a + (b + p) by {}
    assert(below(below(m, a), b) =~= below(m, a + b));
}

proof fn lemma_text_at_below(m: TomlMap, a: KeyPath)
    ensures
        text_at(below(m, a), Seq::<Seq<char>>::empty()) == text_at(m, a),
{
    assert(a + Seq::<Seq<char>>::empty() =~= a);
}

/// The base URL of the selected provider, found by walking the document.
fn doc_provider_base_url(doc: &toml_edit::DocumentMut) -> (r: Option<String>)
    ensures
        opt_view(r) == provider_base_url(toml_doc(*doc)),
{
    let m = Ghost(toml_doc(*doc));
    let provider = match doc_get(doc, "model_provider") {
        Some(item) => {
            proof {
                lemma_text_at_below(m@, seq!["model_provider"@]);
            }
            match item_as_str(item) {
                Some(p) => p,
                None => return None,
            }
        },
        None => return None,
    };
    let ghost pk = seq!["model_providers"@, provider@, "base_url"@];
    let providers = match doc_get(doc, "model_providers") {
        Some(i) => i,
        None => {
            assert(!m@.contains_key(seq!["model_providers"@] + seq![provider@, "base_url"@]));
            assert(seq!["model_providers"@] + seq![provider@, "base_url"@] =~= pk);
            return None;
        },
    };
    let table = match item_table_get(providers, provider.as_str()) {
        Some(t) => t,
        None => {
            assert(!below(m@, seq!["model_providers"@]).contains_key(
                seq![provider@] + seq!["base_url"@],
            ));
            assert(seq!["model_providers"@] + (seq![provider@] + seq!["base_url"@]) =~= pk);
            return None;
        },
    };
    let url = match item_table_get(table, "base_url") {
        Some(u) => u,
        None => {
            proof {
                lemma_below_compose(m@, seq!["model_providers"@], seq![provider@]);
                assert(seq!["model_providers"@] + seq![provider@] =~= seq![
                    "model_providers"@,
                    provider@,
                ]);
                assert(!below(m@, seq!["model_providers"@, provider@]).contains_key(
                    seq!["base_url"@] + Seq::<Seq<char>>::empty(),
                ));
                assert(seq!["base_url"@] + Seq::<Seq<char>>::empty() =~= seq!["base_url"@]);
                assert(seq!["model_providers"@, provider@] + seq!["base_url"@] =~= pk);
            }
            return None;
        },
    };
    proof {
        lemma_below_compose(m@, seq!["model_providers"@], seq![provider@]);
        assert(seq!["model_providers"@] + seq![provider@] =~= seq!["model_providers"@, provider@]);
        lemma_below_compose(m@, seq!["model_providers"@, provider@], seq!["base_url"@]);
        assert(seq!["model_providers"@, provider@] + seq!["base_url"@] =~= pk);
        lemma_text_at_below(m@, pk);
    }
    item_as_str(url)
}

/// The base URL that a `config.toml` content names.
pub fn extract_base_url(raw: &Option<String>) -> (r: Option<String>)
    ensures
        opt_view(r) == config_base_url(opt_view(*raw)),
{
    let text = match raw {
        Some(t) => t,
        None => return None,
    };
    let doc = match toml_parse(text.as_str()) {
        Ok(d) => d,
        Err(_) => {
            return match extract_toml_value(raw, "openai_base_url") {
                Some(u) => Some(u),
                None => extract_toml_value(raw, "base_url"),
            };
        },
    };
    let top = match doc_get(&doc, "openai_base_url") {
        Some(item) => {
            proof {
                lemma_text_at_below(toml_doc(doc), seq!["openai_base_url"@]);
            }
            item_as_str(item)
        },
        None => None,
    };
    match top {
        Some(u) => Some(u),
        None => match doc_provider_base_url(&doc) {
            Some(u) => Some(u),
            None => extract_toml_value(raw, "base_url"),
        },
    }
}

/// The config an account profile starts from when the current one is not
/// TOML or missing.
pub const DEFAULT_ACCOUNT_CONFIG: &'static str = "model_provider = \"openai\"\nmodel = \"gpt-5.5\"\nreview_model = \"gpt-5.5\"\nmodel_reasoning_effort = \"xhigh\"\ndisable_response_storage = true\nnetwork_access = \"enabled\"\nwindows_wsl_setup_acknowledged = true\nmodel_context_window = 1000000\nmodel_auto_compact_token_limit = 900000\n";

/// The tree of the default account config.
pub open spec fn default_account_tree() -> TomlMap {
    match toml_text(DEFAULT_ACCOUNT_CONFIG@) {
        Some(m) => m,
        None => empty_tree(),
    }
}

/// The default account config document.
pub fn default_account_config_document() -> (r: toml_edit::DocumentMut)
    ensures
        toml_doc(r) == default_account_tree(),
        match toml_parsed(DEFAULT_ACCOUNT_CONFIG@) {
            Some(d) => r == d,
            None => fresh_doc(r),
        },
{
    match toml_parse(DEFAULT_ACCOUNT_CONFIG) {
        Ok(d) => d,
        Err(_) => doc_new(),
    }
}

/// A key set to a value unless the root already holds it.
pub open spec fn with_default(m: TomlMap, key: Seq<char>, n: TomlNode) -> TomlMap {
    if m.contains_key(seq![key]) {
        m
    } else {
        with_leaf(m, seq![key], n)
    }
}

/// The document with a key assigned unless the root already holds it.
pub open spec fn assign_default(d: toml_edit::DocumentMut, key: Seq<char>, v: TomlNode) -> toml_edit::DocumentMut {
    if toml_doc(d).contains_key(seq![key]) {
        d
    } else {
        toml_assigned(d, key, v)
    }
}

/// The built-in `openai` provider's table entries dropped; the providers
/// table dropped when that leaves it empty. Only a standard table is pruned.
pub open spec fn pruned_providers(m: TomlMap) -> TomlMap {
    let mp = seq!["model_providers"@];
    if m.contains_key(mp) && m[mp] == TomlNode::Table {
        let p = without(without(m, seq!["model_providers"@, "OpenAI"@]), seq!["model_providers"@, "openai"@]);
        if no_entries(p, mp) {
            without(p, mp)
        } else {
            p
        }
    } else {
        m
    }
}

/// The document with the built-in provider's entries removed, as
/// `pruned_providers` says of its tree.
pub open spec fn pruned_providers_doc(d: toml_edit::DocumentMut) -> toml_edit::DocumentMut {
    let mp = seq!["model_providers"@];
    if toml_doc(d).contains_key(mp) && toml_doc(d)[mp] == TomlNode::Table {
        let p = toml_entry_removed(toml_entry_removed(d, "model_providers"@, "OpenAI"@), "model_providers"@, "openai"@);
        if no_entries(toml_doc(p), mp) {
            toml_removed(p, "model_providers"@)
        } else {
            p
        }
    } else {
        d
    }
}

/// The tree an account-mode config has: the provider set to `openai`, the
/// defaults filled in where missing (`gpt-5.5`, `xhigh`, response storage
/// off, network access enabled, WSL setup acknowledged, a context window of
/// 1 000 000 and auto-compaction at 900 000 tokens), the base-URL overrides
/// and the built-in provider's table entries removed; every other entry
/// kept as it was.
pub open spec fn account_tree(start: TomlMap) -> TomlMap {
    let m0 = with_leaf(start, seq!["model_provider"@], TomlNode::Text("openai"@));
    let m1 = with_default(m0, "model"@, TomlNode::Text("gpt-5.5"@));
    let m2 = with_default(m1, "review_model"@, TomlNode::Text("gpt-5.5"@));
    let m3 = with_default(m2, "model_reasoning_effort"@, TomlNode::Text("xhigh"@));
    let m4 = with_default(m3, "disable_response_storage"@, TomlNode::Bool(true));
    let m5 = with_default(m4, "network_access"@, TomlNode::Text("enabled"@));
    let m6 = with_default(m5, "windows_wsl_setup_acknowledged"@, TomlNode::Bool(true));
    let m7 = with_default(m6, "model_context_window"@, TomlNode::Int(1000000));
    let m8 = with_default(m7, "model_auto_compact_token_limit"@, TomlNode::Int(900000));
    let m9 = without(without(m8, seq!["openai_base_url"@]), seq!["chatgpt_base_url"@]);
    pruned_providers(m9)
}

/// The document the account-mode edits make of a start document, edit by
/// edit, in the order `account_tree` lists them.
pub open spec fn account_doc(start: toml_edit::DocumentMut) -> toml_edit::DocumentMut {
    let d0 = toml_assigned(start, "model_provider"@, TomlNode::Text("openai"@));
    let d1 = assign_default(d0, "model"@, TomlNode::Text("gpt-5.5"@));
    let d2 = assign_default(d1, "review_model"@, TomlNode::Text("gpt-5.5"@));
    let d3 = assign_default(d2, "model_reasoning_effort"@, TomlNode::Text("xhigh"@));
    let d4 = assign_default(d3, "disable_response_storage"@, TomlNode::Bool(true));
    let d5 = assign_default(d4, "network_access"@, TomlNode::Text("enabled"@));
    let d6 = assign_default(d5, "windows_wsl_setup_acknowledged"@, TomlNode::Bool(true));
    let d7 = assign_default(d6, "model_context_window"@, TomlNode::Int(1000000));
    let d8 = assign_default(d7, "model_auto_compact_token_limit"@, TomlNode::Int(900000));
    let d9 = toml_removed(toml_removed(d8, "openai_base_url"@), "chatgpt_base_url"@);
    pruned_providers_doc(d9)
}

/// The tree an account-mode config starts from: the given config when it
/// is TOML, else the default account config.
pub open spec fn account_start(raw: Option<Seq<char>>) -> TomlMap {
    match raw {
        Some(r) => match toml_text(r) {
            Some(m) => m,
            None => default_account_tree(),
        },
        None => default_account_tree(),
    }
}

/// The document an account-mode config starts from, when one is TOML: the
/// parsed config, else the parsed default account config.
pub open spec fn account_start_doc(raw: Option<Seq<char>>) -> Option<toml_edit::DocumentMut> {
    match raw {
        Some(r) => match toml_parsed(r) {
            Some(d) => Some(d),
            None => toml_parsed(DEFAULT_ACCOUNT_CONFIG@),
        },
        None => toml_parsed(DEFAULT_ACCOUNT_CONFIG@),
    }
}

/// A document's text as a config file holds it: trailing whitespace
/// dropped, one newline added.
pub open spec fn config_file_text(doc: toml_edit::DocumentMut) -> Seq<char> {
    trim_end(toml_render(doc), CharSet::Whitespace).push('\n')
}

/// `text` is the text of the document the account-mode edits make of
/// `start`, and that document's tree is `account_tree` of the start tree.
pub open spec fn account_edited(text: Seq<char>, raw: Option<Seq<char>>, start: toml_edit::DocumentMut) -> bool {
    text == config_file_text(account_doc(start)) && toml_doc(account_doc(start)) == account_tree(
        account_start(raw),
    )
}

/// `text` is the account-mode config made from `raw`: the account-mode
/// edits applied to the start document (to an empty document when neither
/// `raw` nor the default config is TOML).
pub open spec fn account_mode_text(text: Seq<char>, raw: Option<Seq<char>>) -> bool {
    match account_start_doc(raw) {
        Some(start) => account_edited(text, raw, start),
        None => exists|n: toml_edit::DocumentMut| fresh_doc(n) && account_edited(text, raw, n),
    }
}

fn set_default_str(doc: &mut toml_edit::DocumentMut, key: &str, text: &str)
    ensures
        *final(doc) == assign_default(*old(doc), key@, TomlNode::Text(text@)),
        toml_doc(*final(doc)) == with_default(toml_doc(*old(doc)), key@, TomlNode::Text(text@)),
{
    if !doc_contains_key(doc, key) {
        doc_set_str(doc, key, text);
    }
}

fn set_default_bool(doc: &mut toml_edit::DocumentMut, key: &str, flag: bool)
    ensures
        *final(doc) == assign_default(*old(doc), key@, TomlNode::Bool(flag)),
        toml_doc(*final(doc)) == with_default(toml_doc(*old(doc)), key@, TomlNode::Bool(flag)),
{
    if !doc_contains_key(doc, key) {
        doc_set_bool(doc, key, flag);
    }
}

fn set_default_int(doc: &mut toml_edit::DocumentMut, key: &str, number: i64)
    ensures
        *final(doc) == assign_default(*old(doc), key@, TomlNode::Int(number as int)),
        toml_doc(*final(doc)) == with_default(
            toml_doc(*old(doc)),
            key@,
            TomlNode::Int(number as int),
        ),
{
    if !doc_contains_key(doc, key) {
        doc_set_int(doc, key, number);
    }
}

/// The text of a document as written to a config file.
fn file_text(doc: &toml_edit::DocumentMut) -> (r: String)
    ensures
        r@ == config_file_text(*doc),
{
    let rendered = doc_render(doc);
    let cs = chars_of(rendered.as_str());
    let ws = CharSet::Whitespace;
    let e = trim_end_range(&cs, 0, cs.len(), &ws);
    let body = sub_vec(&cs, 0, e);
    proof {
        assert(cs@.subrange(0, cs@.len() as int) =~= cs@);
    }
    let mut out = string_of(&body);
    push_char(&mut out, '\n');
    out
}

/// The account-mode config made from a config: the provider switched to
/// `openai`, missing defaults filled in, base-URL overrides and the
/// built-in provider's entries removed, rendered by `toml_edit`.
pub fn account_mode_config(raw: Option<&str>) -> (r: String)
    ensures
        account_mode_text(
            r@,
            match raw {
                Some(s) => Some(s@),
                None => None,
            },
        ),
{
    let ghost rawv: Option<Seq<char>> = match raw {
        Some(s) => Some(s@),
        None => None,
    };
    let mut doc = match raw {
        Some(text) => match toml_parse(text) {
            Ok(d) => d,
            Err(_) => default_account_config_document(),
        },
        None => default_account_config_document(),
    };
    let ghost start = doc;
    assert(toml_doc(start) == account_start(rawv));
    assert(account_start_doc(rawv) is Some ==> account_start_doc(rawv) == Some(start));
    assert(account_start_doc(rawv) is None ==> fresh_doc(start));
    doc_set_str(&mut doc, "model_provider", "openai");
    set_default_str(&mut doc, "model", "gpt-5.5");
    set_default_str(&mut doc, "review_model", "gpt-5.5");
    set_default_str(&mut doc, "model_reasoning_effort", "xhigh");
    set_default_bool(&mut doc, "disable_response_storage", true);
    set_default_str(&mut doc, "network_access", "enabled");
    set_default_bool(&mut doc, "windows_wsl_setup_acknowledged", true);
    set_default_int(&mut doc, "model_context_window", 1_000_000);
    set_default_int(&mut doc, "model_auto_compact_token_limit", 900_000);
    doc_remove(&mut doc, "openai_base_url");
    doc_remove(&mut doc, "chatgpt_base_url");
    let ghost before_prune = doc;
    if doc_table_remove(&mut doc, "model_providers", "OpenAI") {
        doc_table_remove(&mut doc, "model_providers", "openai");
        match doc_table_is_empty(&doc, "model_providers") {
            Some(true) => doc_remove(&mut doc, "model_providers"),
            _ => {},
        }
    }
    proof {
        assert(toml_doc(doc) == pruned_providers(toml_doc(before_prune)));
        assert(doc == pruned_providers_doc(before_prune));
        assert(doc == account_doc(start));
    }
    let out = file_text(&doc);
    out
}

/// The tree of the settings every proxy profile's config starts with:
/// the provider and models given, response storage off, network access
/// enabled, WSL setup acknowledged, a context window of 1 000 000 and
/// auto-compaction at 900 000 tokens.
pub open spec fn proxy_base_tree(
    model: Seq<char>,
    review_model: Seq<char>,
    effort: Seq<char>,
    provider: Seq<char>,
) -> TomlMap {
    let m0 = with_leaf(empty_tree(), seq!["model_provider"@], TomlNode::Text(provider));
    let m1 = with_leaf(m0, seq!["model"@], TomlNode::Text(model));
    let m2 = with_leaf(m1, seq!["review_model"@], TomlNode::Text(review_model));
    let m3 = with_leaf(m2, seq!["model_reasoning_effort"@], TomlNode::Text(effort));
    let m4 = with_leaf(m3, seq!["disable_response_storage"@], TomlNode::Bool(true));
    let m5 = with_leaf(m4, seq!["network_access"@], TomlNode::Text("enabled"@));
    let m6 = with_leaf(m5, seq!["windows_wsl_setup_acknowledged"@], TomlNode::Bool(true));
    let m7 = with_leaf(m6, seq!["model_context_window"@], TomlNode::Int(1000000));
    with_leaf(m7, seq!["model_auto_compact_token_limit"@], TomlNode::Int(900000))
}

/// The document the base settings make of the new document `n`, assigned
/// in the order `proxy_base_tree` lists them.
pub open spec fn proxy_base_doc(
    n: toml_edit::DocumentMut,
    model: Seq<char>,
    review_model: Seq<char>,
    effort: Seq<char>,
    provider: Seq<char>,
) -> toml_edit::DocumentMut {
    let d0 = toml_assigned(n, "model_provider"@, TomlNode::Text(provider));
    let d1 = toml_assigned(d0, "model"@, TomlNode::Text(model));
    let d2 = toml_assigned(d1, "review_model"@, TomlNode::Text(review_model));
    let d3 = toml_assigned(d2, "model_reasoning_effort"@, TomlNode::Text(effort));
    let d4 = toml_assigned(d3, "disable_response_storage"@, TomlNode::Bool(true));
    let d5 = toml_assigned(d4, "network_access"@, TomlNode::Text("enabled"@));
    let d6 = toml_assigned(d5, "windows_wsl_setup_acknowledged"@, TomlNode::Bool(true));
    let d7 = toml_assigned(d6, "model_context_window"@, TomlNode::Int(1000000));
    toml_assigned(d7, "model_auto_compact_token_limit"@, TomlNode::Int(900000))
}

/// A new document with the settings every proxy profile's config starts with.
pub fn proxy_base_config_document(
    model: &str,
    review_model: &str,
    effort: &str,
    provider: &str,
) -> (r: toml_edit::DocumentMut)
    ensures
        toml_doc(r) == proxy_base_tree(model@, review_model@, effort@, provider@),
        exists|n: toml_edit::DocumentMut|
            fresh_doc(n) && r == proxy_base_doc(n, model@, review_model@, effort@, provider@),
{
    let mut doc = doc_new();
    let ghost n = doc;
    doc_set_str(&mut doc, "model_provider", provider);
    doc_set_str(&mut doc, "model", model);
    doc_set_str(&mut doc, "review_model", review_model);
    doc_set_str(&mut doc, "model_reasoning_effort", effort);
    doc_set_bool(&mut doc, "disable_response_storage", true);
    doc_set_str(&mut doc, "network_access", "enabled");
    doc_set_bool(&mut doc, "windows_wsl_setup_acknowledged", true);
    doc_set_int(&mut doc, "model_context_window", 1_000_000);
    doc_set_int(&mut doc, "model_auto_compact_token_limit", 900_000);
    assert(doc == proxy_base_doc(n, model@, review_model@, effort@, provider@));
    doc
}

/// The tree of a proxy account profile's config: the base settings with the
/// `openai` provider and the normalised base URL as `openai_base_url`.
pub open spec fn proxy_account_tree(
    model: Seq<char>,
    review_model: Seq<char>,
    effort: Seq<char>,
    base_url: Seq<char>,
) -> TomlMap {
    with_leaf(
        proxy_base_tree(model, review_model, effort, "openai"@),
        seq!["openai_base_url"@],
        TomlNode::Text(api_base(base_url)),
    )
}

/// The document of a proxy account profile's config, made from the new
/// document `n`.
pub open spec fn proxy_account_doc(
    n: toml_edit::DocumentMut,
    model: Seq<char>,
    review_model: Seq<char>,
    effort: Seq<char>,
    base_url: Seq<char>,
) -> toml_edit::DocumentMut {
    toml_assigned(
        proxy_base_doc(n, model, review_model, effort, "openai"@),
        "openai_base_url"@,
        TomlNode::Text(api_base(base_url)),
    )
}

/// `text` is a proxy account profile's config: the text of its document,
/// whose tree is `proxy_account_tree`.
pub open spec fn proxy_account_text(
    text: Seq<char>,
    model: Seq<char>,
    review_model: Seq<char>,
    effort: Seq<char>,
    base_url: Seq<char>,
) -> bool {
    exists|n: toml_edit::DocumentMut|
        fresh_doc(n) && text == config_file_text(
            proxy_account_doc(n, model, review_model, effort, base_url),
        ) && toml_doc(proxy_account_doc(n, model, review_model, effort, base_url))
            == proxy_account_tree(model, review_model, effort, base_url)
}

/// The config of a proxy profile that keeps the account login.
pub fn proxy_account_config(model: &str, review_model: &str, effort: &str, base_url: &str) -> (r:
    String)
    ensures
        proxy_account_text(r@, model@, review_model@, effort@, base_url@),
{
    let mut doc = proxy_base_config_document(model, review_model, effort, "openai");
    let ghost n = choose|n: toml_edit::DocumentMut|
        fresh_doc(n) && doc == proxy_base_doc(n, model@, review_model@, effort@, "openai"@);
    let url = normalize_proxy_base_url(base_url);
    doc_set_str(&mut doc, "openai_base_url", url.as_str());
    assert(doc == proxy_account_doc(n, model@, review_model@, effort@, base_url@));
    file_text(&doc)
}

/// The tree of the `OpenAI` provider table of an API profile.
pub open spec fn api_provider_tree(base_url: Seq<char>) -> TomlMap {
    let t0 = with_leaf(empty_tree(), seq!["name"@], TomlNode::Text("OpenAI"@));
    let t1 = with_leaf(t0, seq!["base_url"@], TomlNode::Text(provider_base(base_url)));
    let t2 = with_leaf(t1, seq!["wire_api"@], TomlNode::Text("responses"@));
    with_leaf(t2, seq!["requires_openai_auth"@], TomlNode::Bool(true))
}

/// The tree of an API profile's config: the base settings with the `OpenAI`
/// provider, defined in `model_providers.OpenAI` with the provider base URL.
pub open spec fn proxy_api_tree(
    model: Seq<char>,
    review_model: Seq<char>,
    effort: Seq<char>,
    base_url: Seq<char>,
) -> TomlMap {
    with_table(
        proxy_base_tree(model, review_model, effort, "OpenAI"@),
        seq!["model_providers"@],
        with_table(empty_tree(), seq!["OpenAI"@], api_provider_tree(base_url)),
    )
}

/// The `OpenAI` provider table made from the new table `o`.
pub open spec fn api_provider_table(o: toml_edit::Table, base_url: Seq<char>) -> toml_edit::Table {
    let t0 = table_assigned(o, "name"@, TomlNode::Text("OpenAI"@));
    let t1 = table_assigned(t0, "base_url"@, TomlNode::Text(provider_base(base_url)));
    let t2 = table_assigned(t1, "wire_api"@, TomlNode::Text("responses"@));
    table_assigned(t2, "requires_openai_auth"@, TomlNode::Bool(true))
}

/// The document of an API profile's config, made from the new document `n`
/// and the new tables `p` (the implicit `model_providers`) and `o` (its
/// `OpenAI` table).
pub open spec fn proxy_api_doc(
    n: toml_edit::DocumentMut,
    p: toml_edit::Table,
    o: toml_edit::Table,
    model: Seq<char>,
    review_model: Seq<char>,
    effort: Seq<char>,
    base_url: Seq<char>,
) -> toml_edit::DocumentMut {
    toml_table_set(
        proxy_base_doc(n, model, review_model, effort, "OpenAI"@),
        "model_providers"@,
        table_nested(table_implicit(p), "OpenAI"@, api_provider_table(o, base_url)),
    )
}

/// `text` is an API profile's config: the text of its document, whose tree
/// is `proxy_api_tree`.
pub open spec fn proxy_api_text(
    text: Seq<char>,
    model: Seq<char>,
    review_model: Seq<char>,
    effort: Seq<char>,
    base_url: Seq<char>,
) -> bool {
    exists|n: toml_edit::DocumentMut, p: toml_edit::Table, o: toml_edit::Table|
        fresh_doc(n) && fresh_table(p) && fresh_table(o) && text == config_file_text(
            proxy_api_doc(n, p, o, model, review_model, effort, base_url),
        ) && toml_doc(proxy_api_doc(n, p, o, model, review_model, effort, base_url))
            == proxy_api_tree(model, review_model, effort, base_url)
}

/// The config of an API-key profile.
pub fn proxy_api_config(model: &str, review_model: &str, effort: &str, base_url: &str) -> (r:
    String)
    ensures
        proxy_api_text(r@, model@, review_model@, effort@, base_url@),
{
    let mut doc = proxy_base_config_document(model, review_model, effort, "OpenAI");
    let ghost n = choose|n: toml_edit::DocumentMut|
        fresh_doc(n) && doc == proxy_base_doc(n, model@, review_model@, effort@, "OpenAI"@);
    let mut providers = table_new();
    let ghost p = providers;
    table_set_implicit(&mut providers);
    let mut openai = table_new();
    let ghost o = openai;
    let url = api_provider_base_url(base_url);
    table_set_str(&mut openai, "name", "OpenAI");
    table_set_str(&mut openai, "base_url", url.as_str());
    table_set_str(&mut openai, "wire_api", "responses");
    table_set_bool(&mut openai, "requires_openai_auth", true);
    assert(openai == api_provider_table(o, base_url@));
    assert(toml_table(openai) == api_provider_tree(base_url@));
    table_set_table(&mut providers, "OpenAI", openai);
    doc_set_table(&mut doc, "model_providers", providers);
    assert(doc == proxy_api_doc(n, p, o, model@, review_model@, effort@, base_url@));
    file_text(&doc)
}

/// How `serde_json` writes one character inside a string: `"` and `\\`
/// behind a backslash, the control characters with a short escape where
/// JSON has one and as `\\u00XX` (lowercase hex) otherwise, any other
/// character as itself.
pub open spec fn json_escaped(c: char) -> Seq<char> {
    let u = c as u32;
    if c == '"' {
        seq!['\\', '"']
    } else if c == '\\' {
        seq!['\\', '\\']
    } else if u == 8 {
        seq!['\\', 'b']
    } else if u == 9 {
        seq!['\\', 't']
    } else if u == 10 {
        seq!['\\', 'n']
    } else if u == 12 {
        seq!['\\', 'f']
    } else if u == 13 {
        seq!['\\', 'r']
    } else if u < 0x20 {
        seq!['\\', 'u', '0', '0', hex_digit((u / 16) as u8), hex_digit((u % 16) as u8)]
    } else {
        seq![c]
    }
}

/// The characters of a string, each as `serde_json` writes it.
pub open spec fn json_escaped_text(s: Seq<char>) -> Seq<char>
    decreases s.len(),
{
    if s.len() == 0 {
        seq![]
    } else {
        json_escaped(s[0]) + json_escaped_text(s.drop_first())
    }
}

/// The JSON text of a string value: the escaped characters between quotes.
pub open spec fn json_quoted(s: Seq<char>) -> Seq<char> {
    seq!['"'] + json_escaped_text(s) + seq!['"']
}

/// `Display` of `serde_json::Value::String`: the string between quotes,
/// each character escaped as `serde_json`'s compact formatter escapes it.
#[verifier::external_body]
fn json_string_text(s: &str) -> (r: String)
    ensures
        r@ == json_quoted(s@),
{
    serde_json::Value::String(s.to_string()).to_string()
}

/// The `auth.json` of an API-key profile: one member, the trimmed key.
pub open spec fn api_auth_text(api_key: Seq<char>) -> Seq<char> {
    "{\"OPENAI_API_KEY\":"@ + json_quoted(trim_ws(api_key)) + "}"@
}

/// The `auth.json` content that holds an API key.
pub fn api_auth_json(api_key: &str) -> (r: String)
    ensures
        r@ == api_auth_text(api_key@),
{
    let cs = chars_of(api_key);
    let ws = CharSet::Whitespace;
    let (a, b) = trim_range(&cs, 0, cs.len(), &ws);
    let key = sub_vec(&cs, a, b);
    proof {
        assert(cs@.subrange(0, cs@.len() as int) =~= cs@);
    }
    let key_s = string_of(&key);
    let quoted = json_string_text(key_s.as_str());
    let mut out = String::from_str("{\"OPENAI_API_KEY\":");
    out.append(quoted.as_str());
    out.append("}");
    out
}

/// The value an account-mode config gets for a key it fills in when
/// missing; `None` for the other keys.
pub open spec fn account_default(k: Seq<char>) -> Option<TomlNode> {
    if k == "model"@ || k == "review_model"@ {
        Some(TomlNode::Text("gpt-5.5"@))
    } else if k == "model_reasoning_effort"@ {
        Some(TomlNode::Text("xhigh"@))
    } else if k == "disable_response_storage"@ || k == "windows_wsl_setup_acknowledged"@ {
        Some(TomlNode::Bool(true))
    } else if k == "network_access"@ {
        Some(TomlNode::Text("enabled"@))
    } else if k == "model_context_window"@ {
        Some(TomlNode::Int(1000000))
    } else if k == "model_auto_compact_token_limit"@ {
        Some(TomlNode::Int(900000))
    } else {
        None
    }
}

proof fn lemma_one_key_prefix(k: Seq<char>, key: Seq<char>)
    ensures
        has_prefix(seq![k], seq![key]) <==> k == key,
{
    if has_prefix(seq![k], seq![key]) {
        assert(seq![k].take(1)[0] == k);
        assert(seq![key][0] == key);
    } else {
        if k == key {
            assert(seq![k].take(1) =~= seq![key]);
        }
    }
}

proof fn lemma_leaf_keeps(m: TomlMap, key: Seq<char>, n: TomlNode, k: Seq<char>)
    ensures
        k != key ==> with_leaf(m, seq![key], n).contains_key(seq![k]) == m.contains_key(seq![k]),
        k != key && m.contains_key(seq![k]) ==> with_leaf(m, seq![key], n)[seq![k]] == m[seq![k]],
        k != key ==> without(m, seq![key]).contains_key(seq![k]) == m.contains_key(seq![k]),
        k != key && m.contains_key(seq![k]) ==> without(m, seq![key])[seq![k]] == m[seq![k]],
        with_leaf(m, seq![key], n).contains_key(seq![key]),
        with_leaf(m, seq![key], n)[seq![key]] == n,
        !without(m, seq![key]).contains_key(seq![key]),
{
    lemma_one_key_prefix(k, key);
    lemma_one_key_prefix(key, key);
    if k != key {
        assert(seq![k] != seq![key]) by {
            assert(seq![k][0] != seq![key][0]);
        }
    }
}

proof fn lemma_default_step(m: TomlMap, key: Seq<char>, n: TomlNode, k: Seq<char>)
    ensures
        k != key ==> with_default(m, key, n).contains_key(seq![k]) == m.contains_key(seq![k]),
        k != key && m.contains_key(seq![k]) ==> with_default(m, key, n)[seq![k]] == m[seq![k]],
        with_default(m, key, n).contains_key(seq![key]),
        with_default(m, key, n)[seq![key]] == if m.contains_key(seq![key]) {
            m[seq![key]]
        } else {
            n
        },
{
    lemma_leaf_keeps(m, key, n, k);
}

proof fn lemma_prune_keeps(m: TomlMap, k: Seq<char>)
    requires
        k != "model_providers"@,
    ensures
        pruned_providers(m).contains_key(seq![k]) == m.contains_key(seq![k]),
        m.contains_key(seq![k]) ==> pruned_providers(m)[seq![k]] == m[seq![k]],
{
    let q = seq![k];
    let mp = seq!["model_providers"@];
    let a = seq!["model_providers"@, "OpenAI"@];
    let b = seq!["model_providers"@, "openai"@];
    assert(!has_prefix(q, a));
    assert(!has_prefix(q, b));
    lemma_one_key_prefix(k, "model_providers"@);
}

/// What an account-mode config holds at the top level: the provider is
/// `openai`; each key it fills in keeps the value the start config gave it,
/// or gets its default when missing; the base-URL overrides are gone; every
/// other top-level key but `model_providers` keeps its value.
pub proof fn law_account_mode_values(m: TomlMap, k: Seq<char>)
    ensures
        account_tree(m).contains_key(seq!["model_provider"@]),
        account_tree(m)[seq!["model_provider"@]] == TomlNode::Text("openai"@),
        !account_tree(m).contains_key(seq!["openai_base_url"@]),
        !account_tree(m).contains_key(seq!["chatgpt_base_url"@]),
        account_default(k) is Some ==> account_tree(m).contains_key(seq![k])
            && account_tree(m)[seq![k]] == if m.contains_key(seq![k]) {
            m[seq![k]]
        } else {
            account_default(k)->0
        },
        account_default(k) is None && k != "model_provider"@ && k != "openai_base_url"@ && k
            != "chatgpt_base_url"@ && k != "model_providers"@ ==> account_tree(m).contains_key(
            seq![k],
        ) == m.contains_key(seq![k]) && (m.contains_key(seq![k]) ==> account_tree(m)[seq![k]]
            == m[seq![k]]),
{
    let m0 = with_leaf(m, seq!["model_provider"@], TomlNode::Text("openai"@));
    let m1 = with_default(m0, "model"@, TomlNode::Text("gpt-5.5"@));
    let m2 = with_default(m1, "review_model"@, TomlNode::Text("gpt-5.5"@));
    let m3 = with_default(m2, "model_reasoning_effort"@, TomlNode::Text("xhigh"@));
    let m4 = with_default(m3, "disable_response_storage"@, TomlNode::Bool(true));
    let m5 = with_default(m4, "network_access"@, TomlNode::Text("enabled"@));
    let m6 = with_default(m5, "windows_wsl_setup_acknowledged"@, TomlNode::Bool(true));
    let m7 = with_default(m6, "model_context_window"@, TomlNode::Int(1000000));
    let m8 = with_default(m7, "model_auto_compact_token_limit"@, TomlNode::Int(900000));
    let m9a = without(m8, seq!["openai_base_url"@]);
    let m9 = without(m9a, seq!["chatgpt_base_url"@]);
    reveal_strlit("model_provider");
    reveal_strlit("model");
    reveal_strlit("review_model");
    reveal_strlit("model_reasoning_effort");
    reveal_strlit("disable_response_storage");
    reveal_strlit("network_access");
    reveal_strlit("windows_wsl_setup_acknowledged");
    reveal_strlit("model_context_window");
    reveal_strlit("model_auto_compact_token_limit");
    reveal_strlit("openai_base_url");
    reveal_strlit("chatgpt_base_url");
    reveal_strlit("model_providers");
    assert(account_tree(m) == pruned_providers(m9));
    assert("model_provider"@.len() == 14 && "model_provider"@[0] == 'm');
    assert("model"@.len() == 5 && "model"@[0] == 'm');
    assert("review_model"@.len() == 12 && "review_model"@[0] == 'r');
    assert("model_reasoning_effort"@.len() == 22 && "model_reasoning_effort"@[0] == 'm');
    assert("disable_response_storage"@.len() == 24 && "disable_response_storage"@[0] == 'd');
    assert("network_access"@.len() == 14 && "network_access"@[0] == 'n');
    assert("windows_wsl_setup_acknowledged"@.len() == 30 && "windows_wsl_setup_acknowledged"@[0] == 'w');
    assert("model_context_window"@.len() == 20 && "model_context_window"@[0] == 'm');
    assert("model_auto_compact_token_limit"@.len() == 30 && "model_auto_compact_token_limit"@[0] == 'm');
    assert("openai_base_url"@.len() == 15 && "openai_base_url"@[0] == 'o');
    assert("chatgpt_base_url"@.len() == 16 && "chatgpt_base_url"@[0] == 'c');
    assert("model_providers"@.len() == 15 && "model_providers"@[0] == 'm');
    if k != "model_providers"@ {
        lemma_prune_keeps(m9, k);
    }
    lemma_prune_keeps(m9, "model_provider"@);
    lemma_prune_keeps(m9, "openai_base_url"@);
    lemma_prune_keeps(m9, "chatgpt_base_url"@);
    lemma_leaf_keeps(m, "model_provider"@, TomlNode::Text("openai"@), k);
    lemma_default_step(m0, "model"@, TomlNode::Text("gpt-5.5"@), k);
    lemma_default_step(m1, "review_model"@, TomlNode::Text("gpt-5.5"@), k);
    lemma_default_step(m2, "model_reasoning_effort"@, TomlNode::Text("xhigh"@), k);
    lemma_default_step(m3, "disable_response_storage"@, TomlNode::Bool(true), k);
    lemma_default_step(m4, "network_access"@, TomlNode::Text("enabled"@), k);
    lemma_default_step(m5, "windows_wsl_setup_acknowledged"@, TomlNode::Bool(true), k);
    lemma_default_step(m6, "model_context_window"@, TomlNode::Int(1000000), k);
    lemma_default_step(m7, "model_auto_compact_token_limit"@, TomlNode::Int(900000), k);
    lemma_leaf_keeps(m8, "openai_base_url"@, TomlNode::Other, k);
    lemma_leaf_keeps(m9a, "chatgpt_base_url"@, TomlNode::Other, k);
    // the provider key through the later steps
    let p = "model_provider"@;
    lemma_leaf_keeps(m, p, TomlNode::Text("openai"@), p);
    lemma_default_step(m0, "model"@, TomlNode::Text("gpt-5.5"@), p);
    lemma_default_step(m1, "review_model"@, TomlNode::Text("gpt-5.5"@), p);
    lemma_default_step(m2, "model_reasoning_effort"@, TomlNode::Text("xhigh"@), p);
    lemma_default_step(m3, "disable_response_storage"@, TomlNode::Bool(true), p);
    lemma_default_step(m4, "network_access"@, TomlNode::Text("enabled"@), p);
    lemma_default_step(m5, "windows_wsl_setup_acknowledged"@, TomlNode::Bool(true), p);
    lemma_default_step(m6, "model_context_window"@, TomlNode::Int(1000000), p);
    lemma_default_step(m7, "model_auto_compact_token_limit"@, TomlNode::Int(900000), p);
    lemma_leaf_keeps(m8, "openai_base_url"@, TomlNode::Other, p);
    lemma_leaf_keeps(m9a, "chatgpt_base_url"@, TomlNode::Other, p);
    lemma_leaf_keeps(m8, "openai_base_url"@, TomlNode::Other, "chatgpt_base_url"@);
    lemma_leaf_keeps(m9a, "chatgpt_base_url"@, TomlNode::Other, "openai_base_url"@);
    lemma_leaf_keeps(m9a, "chatgpt_base_url"@, TomlNode::Other, "chatgpt_base_url"@);
}

proof fn lemma_distinct_keys()
    ensures
        "model_provider"@ != "model"@,
        "model_provider"@ != "review_model"@,
        "model_provider"@ != "model_reasoning_effort"@,
        "model_provider"@ != "disable_response_storage"@,
        "model_provider"@ != "network_access"@,
        "model_provider"@ != "windows_wsl_setup_acknowledged"@,
        "model_provider"@ != "model_context_window"@,
        "model_provider"@ != "model_auto_compact_token_limit"@,
        "model"@ != "review_model"@,
        "model"@ != "model_reasoning_effort"@,
        "model"@ != "disable_response_storage"@,
        "model"@ != "network_access"@,
        "model"@ != "windows_wsl_setup_acknowledged"@,
        "model"@ != "model_context_window"@,
        "model"@ != "model_auto_compact_token_limit"@,
        "review_model"@ != "model_reasoning_effort"@,
        "review_model"@ != "disable_response_storage"@,
        "review_model"@ != "network_access"@,
        "review_model"@ != "windows_wsl_setup_acknowledged"@,
        "review_model"@ != "model_context_window"@,
        "review_model"@ != "model_auto_compact_token_limit"@,
        "model_reasoning_effort"@ != "disable_response_storage"@,
        "model_reasoning_effort"@ != "network_access"@,
        "model_reasoning_effort"@ != "windows_wsl_setup_acknowledged"@,
        "model_reasoning_effort"@ != "model_context_window"@,
        "model_reasoning_effort"@ != "model_auto_compact_token_limit"@,
        "model_provider"@ != "model_providers"@,
        "model"@ != "model_providers"@,
        "review_model"@ != "model_providers"@,
        "model_reasoning_effort"@ != "model_providers"@,
        "model_provider"@ != "openai_base_url"@,
        "model"@ != "openai_base_url"@,
        "review_model"@ != "openai_base_url"@,
        "model_reasoning_effort"@ != "openai_base_url"@,
{
    reveal_strlit("model_provider");
    reveal_strlit("model");
    reveal_strlit("review_model");
    reveal_strlit("model_reasoning_effort");
    reveal_strlit("disable_response_storage");
    reveal_strlit("network_access");
    reveal_strlit("windows_wsl_setup_acknowledged");
    reveal_strlit("model_context_window");
    reveal_strlit("model_auto_compact_token_limit");
    reveal_strlit("model_providers");
    reveal_strlit("openai_base_url");
    assert("model_provider"@.len() == 14 && "model_provider"@[0] == 'm');
    assert("model"@.len() == 5);
    assert("review_model"@.len() == 12);
    assert("model_reasoning_effort"@.len() == 22);
    assert("disable_response_storage"@.len() == 24);
    assert("network_access"@.len() == 14 && "network_access"@[0] == 'n');
    assert("windows_wsl_setup_acknowledged"@.len() == 30);
    assert("model_context_window"@.len() == 20);
    assert("model_auto_compact_token_limit"@.len() == 30);
    assert("model_providers"@.len() == 15);
    assert("openai_base_url"@.len() == 15);
}

proof fn lemma_base_value(
    model: Seq<char>,
    review_model: Seq<char>,
    effort: Seq<char>,
    provider: Seq<char>,
    k: Seq<char>,
)
    requires
        k == "model_provider"@ || k == "model"@ || k == "review_model"@ || k
            == "model_reasoning_effort"@,
    ensures
        text_at(proxy_base_tree(model, review_model, effort, provider), seq![k]) == if k
            == "model_provider"@ {
            Some(provider)
        } else if k == "model"@ {
            Some(model)
        } else if k == "review_model"@ {
            Some(review_model)
        } else {
            Some(effort)
        },
{
    lemma_distinct_keys();
    let m0 = with_leaf(empty_tree(), seq!["model_provider"@], TomlNode::Text(provider));
    let m1 = with_leaf(m0, seq!["model"@], TomlNode::Text(model));
    let m2 = with_leaf(m1, seq!["review_model"@], TomlNode::Text(review_model));
    let m3 = with_leaf(m2, seq!["model_reasoning_effort"@], TomlNode::Text(effort));
    let m4 = with_leaf(m3, seq!["disable_response_storage"@], TomlNode::Bool(true));
    let m5 = with_leaf(m4, seq!["network_access"@], TomlNode::Text("enabled"@));
    let m6 = with_leaf(m5, seq!["windows_wsl_setup_acknowledged"@], TomlNode::Bool(true));
    let m7 = with_leaf(m6, seq!["model_context_window"@], TomlNode::Int(1000000));
    lemma_leaf_keeps(empty_tree(), "model_provider"@, TomlNode::Text(provider), k);
    lemma_leaf_keeps(m0, "model"@, TomlNode::Text(model), k);
    lemma_leaf_keeps(m1, "review_model"@, TomlNode::Text(review_model), k);
    lemma_leaf_keeps(m2, "model_reasoning_effort"@, TomlNode::Text(effort), k);
    lemma_leaf_keeps(m3, "disable_response_storage"@, TomlNode::Bool(true), k);
    lemma_leaf_keeps(m4, "network_access"@, TomlNode::Text("enabled"@), k);
    lemma_leaf_keeps(m5, "windows_wsl_setup_acknowledged"@, TomlNode::Bool(true), k);
    lemma_leaf_keeps(m6, "model_context_window"@, TomlNode::Int(1000000), k);
    lemma_leaf_keeps(m7, "model_auto_compact_token_limit"@, TomlNode::Int(900000), k);
}

proof fn lemma_table_keeps(m: TomlMap, key: Seq<char>, child: TomlMap, k: Seq<char>)
    requires
        k != key,
    ensures
        text_at(with_table(m, seq![key], child), seq![k]) == text_at(m, seq![k]),
{
    lemma_one_key_prefix(k, key);
    assert(seq![k] != seq![key]) by {
        assert(seq![k][0] != seq![key][0]);
    }
}

/// The config of an API-key profile holds what the form gave it: the
/// `OpenAI` provider, the model, the review model and the reasoning effort,
/// each as given and independently of the others.
pub proof fn law_api_config_holds_the_form(
    text: Seq<char>,
    model: Seq<char>,
    review_model: Seq<char>,
    effort: Seq<char>,
    base_url: Seq<char>,
)
    requires
        proxy_api_text(text, model, review_model, effort, base_url),
    ensures
        exists|d: toml_edit::DocumentMut|
            text == config_file_text(d) && text_at(toml_doc(d), seq!["model_provider"@]) == Some(
                "OpenAI"@,
            ) && text_at(toml_doc(d), seq!["model"@]) == Some(model) && text_at(
                toml_doc(d),
                seq!["review_model"@],
            ) == Some(review_model) && text_at(toml_doc(d), seq!["model_reasoning_effort"@])
                == Some(effort),
{
    let (n, p, o) = choose|n: toml_edit::DocumentMut, p: toml_edit::Table, o: toml_edit::Table|
        fresh_doc(n) && fresh_table(p) && fresh_table(o) && text == config_file_text(
            proxy_api_doc(n, p, o, model, review_model, effort, base_url),
        ) && toml_doc(proxy_api_doc(n, p, o, model, review_model, effort, base_url))
            == proxy_api_tree(model, review_model, effort, base_url);
    let d = proxy_api_doc(n, p, o, model, review_model, effort, base_url);
    let base = proxy_base_tree(model, review_model, effort, "OpenAI"@);
    let child = with_table(empty_tree(), seq!["OpenAI"@], api_provider_tree(base_url));
    lemma_distinct_keys();
    lemma_base_value(model, review_model, effort, "OpenAI"@, "model_provider"@);
    lemma_base_value(model, review_model, effort, "OpenAI"@, "model"@);
    lemma_base_value(model, review_model, effort, "OpenAI"@, "review_model"@);
    lemma_base_value(model, review_model, effort, "OpenAI"@, "model_reasoning_effort"@);
    lemma_table_keeps(base, "model_providers"@, child, "model_provider"@);
    lemma_table_keeps(base, "model_providers"@, child, "model"@);
    lemma_table_keeps(base, "model_providers"@, child, "review_model"@);
    lemma_table_keeps(base, "model_providers"@, child, "model_reasoning_effort"@);
    assert(text == config_file_text(d));
}

/// The config of a proxy profile that keeps the account login holds what
/// the form gave it: the `openai` provider, the model, the review model and
/// the reasoning effort, each as given and independently of the others.
pub proof fn law_proxy_account_config_holds_the_form(
    text: Seq<char>,
    model: Seq<char>,
    review_model: Seq<char>,
    effort: Seq<char>,
    base_url: Seq<char>,
)
    requires
        proxy_account_text(text, model, review_model, effort, base_url),
    ensures
        exists|d: toml_edit::DocumentMut|
            text == config_file_text(d) && text_at(toml_doc(d), seq!["model_provider"@]) == Some(
                "openai"@,
            ) && text_at(toml_doc(d), seq!["model"@]) == Some(model) && text_at(
                toml_doc(d),
                seq!["review_model"@],
            ) == Some(review_model) && text_at(toml_doc(d), seq!["model_reasoning_effort"@])
                == Some(effort),
{
    let n = choose|n: toml_edit::DocumentMut|
        fresh_doc(n) && text == config_file_text(
            proxy_account_doc(n, model, review_model, effort, base_url),
        ) && toml_doc(proxy_account_doc(n, model, review_model, effort, base_url))
            == proxy_account_tree(model, review_model, effort, base_url);
    let d = proxy_account_doc(n, model, review_model, effort, base_url);
    let base = proxy_base_tree(model, review_model, effort, "openai"@);
    let u = TomlNode::Text(api_base(base_url));
    lemma_distinct_keys();
    lemma_base_value(model, review_model, effort, "openai"@, "model_provider"@);
    lemma_base_value(model, review_model, effort, "openai"@, "model"@);
    lemma_base_value(model, review_model, effort, "openai"@, "review_model"@);
    lemma_base_value(model, review_model, effort, "openai"@, "model_reasoning_effort"@);
    lemma_leaf_keeps(base, "openai_base_url"@, u, "model_provider"@);
    lemma_leaf_keeps(base, "openai_base_url"@, u, "model"@);
    lemma_leaf_keeps(base, "openai_base_url"@, u, "review_model"@);
    lemma_leaf_keeps(base, "openai_base_url"@, u, "model_reasoning_effort"@);
    assert(text == config_file_text(d));
}

/// The base URL of a TOML config: a string `openai_base_url` wins; without
/// one, the `base_url` string of the provider that `model_provider` selects
/// under `model_providers` is taken, whatever other `base_url` lines (of
/// providers not selected) come before it.
pub proof fn law_base_url_of_the_selected_provider(
    raw: Seq<char>,
    m: TomlMap,
    provider: Seq<char>,
    url: Seq<char>,
)
    requires
        toml_text(raw) == Some(m),
    ensures
        text_at(m, seq!["openai_base_url"@]) == Some(url) ==> config_base_url(Some(raw)) == Some(
            url,
        ),
        text_at(m, seq!["openai_base_url"@]) is None && text_at(m, seq!["model_provider"@])
            == Some(provider) && text_at(m, seq!["model_providers"@, provider, "base_url"@])
            == Some(url) ==> config_base_url(Some(raw)) == Some(url),
{
}

} // verus!
