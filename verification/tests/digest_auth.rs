use base64::Engine;
use codex_switch::auth::{
    account_info, auth_has_api_key, auth_has_login_tokens, auth_mode, decode_jwt_payload, string_at,
};
use codex_switch::digest::short_hash;

fn token_with(payload: &str) -> String {
    let encoded = base64::engine::general_purpose::URL_SAFE_NO_PAD.encode(payload.as_bytes());
    format!("header.{encoded}.signature")
}

#[test]
fn short_hash_is_the_first_twelve_hex_digits_of_sha256() {
    assert_eq!(short_hash(&Some("hello".to_string())).as_deref(), Some("2cf24dba5fb0"));
    assert_eq!(short_hash(&Some(String::new())).as_deref(), Some("e3b0c44298fc"));
    assert_eq!(short_hash(&None), None);
}

#[test]
fn auth_mode_names_each_kind_of_auth_file() {
    assert_eq!(auth_mode(&None), "未发现 auth.json");
    assert_eq!(auth_mode(&Some("{\"OPENAI_API_KEY\":\"sk-1\"}".to_string())), "API Key");
    assert_eq!(
        auth_mode(&Some("{\"OPENAI_API_KEY\":\"  \",\"tokens\":{\"id_token\":\"t\"}}".to_string())),
        "ChatGPT 登录授权"
    );
    assert_eq!(auth_mode(&Some("{\"refresh_token\":null}".to_string())), "ChatGPT 登录授权");
    assert_eq!(auth_mode(&Some("{\"other\":1}".to_string())), "自定义授权文件");
    assert_eq!(auth_mode(&Some("not json".to_string())), "auth.json 格式异常");
}

#[test]
fn api_key_and_login_tokens_are_detected() {
    assert!(auth_has_api_key(&Some("{\"OPENAI_API_KEY\":\"sk-1\"}".to_string())));
    assert!(!auth_has_api_key(&Some("{\"OPENAI_API_KEY\":\" \"}".to_string())));
    assert!(!auth_has_api_key(&Some("{\"OPENAI_API_KEY\":1}".to_string())));
    assert!(!auth_has_api_key(&None));
    assert!(auth_has_login_tokens(&Some("{\"tokens\":{\"id_token\":5}}".to_string())));
    assert!(!auth_has_login_tokens(&Some("{\"tokens\":{}}".to_string())));
    assert!(!auth_has_login_tokens(&Some("[".to_string())));
}

#[test]
fn jwt_payload_is_decoded_from_the_second_segment() {
    let token = token_with("{\"email\":\"ann@example.com\"}");
    let payload = decode_jwt_payload(&token).expect("payload");
    assert_eq!(string_at(&payload, &["email"]).as_deref(), Some("ann@example.com"));
    assert!(decode_jwt_payload("no-dots").is_none());
    assert!(decode_jwt_payload("a.!!!.c").is_none());
}

#[test]
fn account_info_reads_the_id_token_claims() {
    let claims = "{\"email\":\"ann@example.com\",\"name\":\"Ann\",\"https://api.openai.com/auth\":{\"chatgpt_plan_type\":\"plus\",\"chatgpt_account_id\":\"acc-claim\"}}";
    let auth = format!("{{\"tokens\":{{\"id_token\":\"{}\"}}}}", token_with(claims));
    let info = account_info(&Some(auth));
    assert_eq!(info.email.as_deref(), Some("ann@example.com"));
    assert_eq!(info.name.as_deref(), Some("Ann"));
    assert_eq!(info.plan.as_deref(), Some("plus"));
    assert_eq!(info.account_id.as_deref(), Some("acc-claim"));

    let with_id = format!(
        "{{\"tokens\":{{\"account_id\":\"acc-file\",\"id_token\":\"{}\"}}}}",
        token_with(claims)
    );
    assert_eq!(account_info(&Some(with_id)).account_id.as_deref(), Some("acc-file"));

    let none = account_info(&Some("oops".to_string()));
    assert!(none.email.is_none() && none.name.is_none() && none.plan.is_none() && none.account_id.is_none());
}
