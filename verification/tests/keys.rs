use regolo::auth::{auth_document, get_api_key, key_from_auth_text, load_api_key};
use regolo::cli::{
    bearer, bind_address, chat_completions_url, claude_environment, login_key, model_ids,
    models_in_body, models_url, proxy_base_url,
};
use regolo::json::Json;
use regolo::text::{decimal_string, join_with};

fn s(t: &str) -> Json {
    Json::Str(t.to_string())
}

fn obj(fields: Vec<(&str, Json)>) -> Json {
    Json::Object(fields.into_iter().map(|(k, v)| (k.to_string(), v)).collect())
}

#[test]
fn auth_document_is_compact_json() {
    assert_eq!(auth_document("sk-123"), r#"{"api_key":"sk-123"}"#);
    assert_eq!(auth_document("a\"b"), r#"{"api_key":"a\"b"}"#);
}

#[test]
fn stored_key_reads_back() {
    for key in ["sk-123", "with space", "quote\"and\\slash", "ünïcode"] {
        assert_eq!(key_from_auth_text(&auth_document(key)), Some(key.to_string()));
    }
}

#[test]
fn auth_text_without_key() {
    assert_eq!(key_from_auth_text("not json"), None);
    assert_eq!(key_from_auth_text(r#"{"other":"x"}"#), None);
    assert_eq!(key_from_auth_text(r#"{"api_key":5}"#), None);
    assert_eq!(key_from_auth_text(r#"["api_key"]"#), None);
    assert_eq!(key_from_auth_text(r#"{"api_key":"k","x":1}"#), Some("k".to_string()));
}

#[test]
fn environment_key_wins() {
    let file = Some(r#"{"api_key":"from-file"}"#.to_string());
    assert_eq!(load_api_key(Some("from-env".to_string()), file.clone()), Some("from-env".to_string()));
    assert_eq!(load_api_key(Some(String::new()), file.clone()), Some("from-file".to_string()));
    assert_eq!(load_api_key(None, file), Some("from-file".to_string()));
    assert_eq!(load_api_key(None, None), None);
    assert_eq!(load_api_key(Some(String::new()), None), None);
    assert_eq!(load_api_key(None, Some("garbage".to_string())), None);
}

#[test]
fn standalone_server_key() {
    let file = Some(r#"{"api_key":"from-file"}"#.to_string());
    assert_eq!(get_api_key(Some(String::new()), file.clone()), "");
    assert_eq!(get_api_key(Some("env".to_string()), file.clone()), "env");
    assert_eq!(get_api_key(None, file), "from-file");
    assert_eq!(get_api_key(None, None), "");
    assert_eq!(get_api_key(None, Some("{}".to_string())), "");
}

#[test]
fn login_key_is_trimmed() {
    assert_eq!(login_key("  sk-1\n"), Some("sk-1".to_string()));
    assert_eq!(login_key("sk 2"), Some("sk 2".to_string()));
    assert_eq!(login_key(" \t\n"), None);
    assert_eq!(login_key(""), None);
}

#[test]
fn model_list() {
    let data = obj(vec![(
        "data",
        Json::Array(vec![
            obj(vec![("id", s("brick-v1-beta"))]),
            obj(vec![("object", s("model"))]),
            obj(vec![("id", s("qwen3:32B"))]),
        ]),
    )]);
    assert_eq!(model_ids(&data), vec!["brick-v1-beta".to_string(), "qwen3:32B".to_string()]);
    assert!(model_ids(&obj(vec![("data", s("none"))])).is_empty());
    assert!(model_ids(&Json::Null).is_empty());
}

#[test]
fn addresses_and_headers() {
    assert_eq!(chat_completions_url(), "https://api.regolo.ai/v1/chat/completions");
    assert_eq!(models_url(), "https://api.regolo.ai/models");
    assert_eq!(bearer("sk-1"), "Bearer sk-1");
    assert_eq!(bind_address(0), "0.0.0.0:0");
    assert_eq!(bind_address(8789), "0.0.0.0:8789");
    assert_eq!(proxy_base_url(65535), "http://localhost:65535");
}

#[test]
fn launch_environment() {
    let env = claude_environment("sk-1", "brick-v1-beta", 4242);
    assert_eq!(
        env,
        vec![
            ("ANTHROPIC_API_KEY".to_string(), "sk-1".to_string()),
            ("ANTHROPIC_MODEL".to_string(), "brick-v1-beta".to_string()),
            ("ANTHROPIC_BASE_URL".to_string(), "http://localhost:4242".to_string()),
        ]
    );
}

#[test]
fn decimal_numbers() {
    assert_eq!(decimal_string(0), "0");
    assert_eq!(decimal_string(7), "7");
    assert_eq!(decimal_string(10), "10");
    assert_eq!(decimal_string(429), "429");
    assert_eq!(decimal_string(u64::MAX), u64::MAX.to_string());
}

#[test]
fn joining() {
    assert_eq!(join_with(&vec![], "\n"), "");
    assert_eq!(join_with(&vec!["a".to_string()], "\n"), "a");
    assert_eq!(join_with(&vec!["a".to_string(), String::new(), "c".to_string()], ", "), "a, , c");
}

#[test]
fn model_list_from_body() {
    let body = r#"{"object":"list","data":[{"id":"brick-v1-beta"},{"id":7},{"id":"qwen3:8B"}]}"#;
    assert_eq!(
        models_in_body(body),
        Ok(vec!["brick-v1-beta".to_string(), "qwen3:8B".to_string()])
    );
    assert_eq!(models_in_body(r#"{"data":"none"}"#), Ok(vec![]));
    assert_eq!(models_in_body("[]"), Ok(vec![]));
    let undecodable = Err("error decoding response body".to_string());
    assert_eq!(models_in_body("<html>"), undecodable);
    assert_eq!(models_in_body(""), undecodable);
}

#[test]
fn login_key_trims_unicode_white_space() {
    assert_eq!(login_key("\u{3000}\u{a0}sk-3\u{2028}\u{85}"), Some("sk-3".to_string()));
    assert_eq!(login_key("\u{200b}sk"), Some("\u{200b}sk".to_string()));
    assert_eq!(login_key(" \t sk a\u{2003}b \r\n"), Some("sk a\u{2003}b".to_string()));
    assert_eq!(login_key(" \u{3000}\n"), None);
    assert_eq!(login_key(""), None);
}
