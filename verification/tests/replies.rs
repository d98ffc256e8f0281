use regolo::json::{Json, JsonNumber};
use regolo::proxy::{
    chat_answered, chat_answered_with_id, chat_failed, chat_sent, health_reply, missing_key_reply,
    models_read, models_sent, ChatStep, ModelsStep, ProxyReply, ReplyBody,
};
use regolo::request::{build_chat_messages, Message, MessagesRequest};
use regolo::response::{
    translate_to_anthropic, translate_to_anthropic_with_id, AnthropicResponse, ChatChoice,
    ChatChoiceMessage, ChatCompletionResponse, ChatUsage, ResponseFunction, ResponseToolCall,
};

fn to_value(j: &Json) -> serde_json::Value {
    match j {
        Json::Null => serde_json::Value::Null,
        Json::Bool(b) => serde_json::Value::Bool(*b),
        Json::Number(JsonNumber::Unsigned(u)) => serde_json::Value::Number((*u).into()),
        Json::Number(JsonNumber::Negative(i)) => serde_json::Value::Number((*i).into()),
        Json::Number(JsonNumber::Float(n)) => serde_json::Value::Number(n.clone()),
        Json::Str(t) => serde_json::Value::String(t.clone()),
        Json::Array(a) => serde_json::Value::Array(a.iter().map(to_value).collect()),
        Json::Object(f) => {
            serde_json::Value::Object(f.iter().map(|(k, v)| (k.clone(), to_value(v))).collect())
        }
    }
}

fn value(text: &str) -> serde_json::Value {
    serde_json::from_str(text).unwrap()
}

fn call(id: &str, name: &str, arguments: &str) -> ResponseToolCall {
    ResponseToolCall {
        id: id.to_string(),
        function: ResponseFunction { name: name.to_string(), arguments: arguments.to_string() },
    }
}

fn answer(
    content: Option<&str>,
    reasoning: Option<&str>,
    calls: Vec<ResponseToolCall>,
    finish: Option<&str>,
) -> ChatCompletionResponse {
    ChatCompletionResponse {
        choices: vec![ChatChoice {
            message: ChatChoiceMessage {
                content: content.map(|c| c.to_string()),
                reasoning_content: reasoning.map(|c| c.to_string()),
                tool_calls: calls,
            },
            finish_reason: finish.map(|f| f.to_string()),
        }],
        model: Some("qwen3:32B".to_string()),
        usage: Some(ChatUsage { prompt_tokens: 12, completion_tokens: 34 }),
    }
}

fn blocks(r: &AnthropicResponse) -> Vec<serde_json::Value> {
    r.content.iter().map(to_value).collect()
}

fn document(reply: &ProxyReply) -> serde_json::Value {
    match &reply.body {
        ReplyBody::Document(d) => to_value(d),
        _ => panic!("not a document"),
    }
}

#[test]
fn text_answer_becomes_a_text_block() {
    let r = translate_to_anthropic_with_id(answer(Some("Hello"), None, vec![], Some("stop")), &"brick".to_string(), "abc");
    assert_eq!(r.id, "msg_abc");
    assert_eq!(r.msg_type, "message");
    assert_eq!(r.role, "assistant");
    assert_eq!(r.model, "qwen3:32B");
    assert_eq!(blocks(&r), vec![value(r#"{"type":"text","text":"Hello"}"#)]);
    assert_eq!(r.stop_reason, "end_turn");
    assert_eq!(r.stop_sequence, None);
    assert_eq!(r.usage.input_tokens, 12);
    assert_eq!(r.usage.output_tokens, 34);
}

#[test]
fn reasoning_stands_in_for_missing_content() {
    let r = translate_to_anthropic_with_id(answer(None, Some("thinking"), vec![], None), &"m".to_string(), "1");
    assert_eq!(blocks(&r), vec![value(r#"{"type":"text","text":"thinking"}"#)]);
    let r = translate_to_anthropic_with_id(answer(Some(""), Some("thinking"), vec![], None), &"m".to_string(), "1");
    assert_eq!(blocks(&r), vec![value(r#"{"type":"text","text":""}"#)]);
}

#[test]
fn length_finish_means_max_tokens() {
    let r = translate_to_anthropic_with_id(answer(Some("cut"), None, vec![], Some("length")), &"m".to_string(), "1");
    assert_eq!(r.stop_reason, "max_tokens");
}

#[test]
fn tool_calls_become_tool_use_blocks() {
    let resp = answer(
        Some("checking"),
        None,
        vec![call("call_1", "read_file", r#"{"path":"a.txt"}"#), call("call_2", "ls", "not json")],
        Some("tool_calls"),
    );
    let r = translate_to_anthropic_with_id(resp, &"m".to_string(), "1");
    assert_eq!(r.stop_reason, "tool_use");
    assert_eq!(
        blocks(&r),
        vec![
            value(r#"{"type":"text","text":"checking"}"#),
            value(r#"{"type":"tool_use","id":"call_1","name":"read_file","input":{"path":"a.txt"}}"#),
            value(r#"{"type":"tool_use","id":"call_2","name":"ls","input":{}}"#),
        ]
    );
}

#[test]
fn tool_arguments_with_numbers_are_parsed() {
    let r = translate_to_anthropic_with_id(
        answer(None, None, vec![call("c", "f", r#"{"n":-3,"x":1.5,"u":18446744073709551615}"#)], None),
        &"m".to_string(),
        "1",
    );
    assert_eq!(
        blocks(&r),
        vec![value(r#"{"type":"tool_use","id":"c","name":"f","input":{"n":-3,"x":1.5,"u":18446744073709551615}}"#)]
    );
    match &r.content[0] {
        Json::Object(fields) => match &fields[3].1 {
            Json::Object(input) => {
                assert!(matches!(input[0].1, Json::Number(JsonNumber::Negative(-3))));
                assert!(matches!(input[1].1, Json::Number(JsonNumber::Unsigned(u64::MAX))));
                assert!(matches!(input[2].1, Json::Number(JsonNumber::Float(_))));
            }
            _ => panic!("no input object"),
        },
        _ => panic!("no block"),
    }
}

#[test]
fn tool_calls_win_over_length_finish() {
    let r = translate_to_anthropic_with_id(answer(None, None, vec![call("c", "f", "[1,2]")], Some("length")), &"m".to_string(), "1");
    assert_eq!(r.stop_reason, "tool_use");
    assert_eq!(blocks(&r), vec![value(r#"{"type":"tool_use","id":"c","name":"f","input":[1,2]}"#)]);
}

#[test]
fn empty_answer_gets_one_empty_text_block() {
    let resp = ChatCompletionResponse { choices: vec![], model: None, usage: None };
    let r = translate_to_anthropic_with_id(resp, &"brick-v1-beta".to_string(), "0");
    assert_eq!(blocks(&r), vec![value(r#"{"type":"text","text":""}"#)]);
    assert_eq!(r.model, "brick-v1-beta");
    assert_eq!(r.stop_reason, "end_turn");
    assert_eq!(r.usage.input_tokens, 0);
    assert_eq!(r.usage.output_tokens, 0);
}

#[test]
fn fresh_message_ids_are_msg_and_32_hex_digits() {
    let r = translate_to_anthropic(answer(Some("x"), None, vec![], None), &"m".to_string());
    assert!(r.id.starts_with("msg_"));
    assert_eq!(r.id.len(), 36);
    assert!(r.id[4..].chars().all(|c| c.is_ascii_hexdigit() && !c.is_ascii_uppercase()));
    let other = translate_to_anthropic(answer(Some("x"), None, vec![], None), &"m".to_string());
    assert_ne!(r.id, other.id);
}

#[test]
fn tool_calls_round_trip_through_the_client() {
    let r = translate_to_anthropic_with_id(
        answer(Some("ok"), None, vec![call("call_9", "grep", r#"{"q":"x"}"#)], None),
        &"m".to_string(),
        "1",
    );
    let req = MessagesRequest {
        model: "m".to_string(),
        messages: vec![Message { role: "assistant".to_string(), content: Json::Array(r.content) }],
        system: None,
        max_tokens: None,
        tools: vec![],
    };
    let out = build_chat_messages(&req);
    assert_eq!(out.len(), 1);
    assert_eq!(out[0].content, Some("ok".to_string()));
    let calls = out[0].tool_calls.as_ref().unwrap();
    assert_eq!(calls.len(), 1);
    assert_eq!(calls[0].id, "call_9");
    assert_eq!(calls[0].function.name, "grep");
    assert_eq!(calls[0].function.arguments, r#"{"q":"x"}"#);
}

#[test]
fn failed_send_is_a_proxy_error() {
    match chat_sent(Err("connection refused".to_string())) {
        ChatStep::Reply(reply) => {
            assert_eq!(reply.status, 500);
            assert_eq!(document(&reply), value(r#"{"error":"Proxy error: connection refused"}"#));
        }
        _ => panic!("expected a reply"),
    }
}

#[test]
fn success_status_reads_the_answer() {
    assert!(matches!(chat_sent(Ok(200)), ChatStep::ReadAnswer));
    assert!(matches!(chat_sent(Ok(299)), ChatStep::ReadAnswer));
    assert!(matches!(chat_sent(Ok(199)), ChatStep::ReadFailure(199)));
    assert!(matches!(chat_sent(Ok(300)), ChatStep::ReadFailure(300)));
    assert!(matches!(chat_sent(Ok(429)), ChatStep::ReadFailure(429)));
}

#[test]
fn upstream_error_status_is_passed_on() {
    let reply = chat_failed(429, Some("slow down".to_string()));
    assert_eq!(reply.status, 429);
    assert_eq!(document(&reply), value(r#"{"error":"Regolo API error: 429","details":"slow down"}"#));
    let reply = chat_failed(503, None);
    assert_eq!(reply.status, 503);
    assert_eq!(document(&reply), value(r#"{"error":"Regolo API error: 503","details":""}"#));
}

#[test]
fn unreadable_answer_is_a_parse_error() {
    let reply = chat_answered(Err("missing field `choices`".to_string()), &"m".to_string());
    assert_eq!(reply.status, 500);
    assert_eq!(document(&reply), value(r#"{"error":"Failed to parse response: missing field `choices`"}"#));
}

#[test]
fn readable_answer_is_translated() {
    let reply = chat_answered_with_id(Ok(answer(Some("hi"), None, vec![], None)), &"m".to_string(), "7");
    assert_eq!(reply.status, 200);
    match reply.body {
        ReplyBody::Message(m) => {
            assert_eq!(m.id, "msg_7");
            assert_eq!(blocks(&m), vec![value(r#"{"type":"text","text":"hi"}"#)]);
        }
        _ => panic!("expected a message"),
    }
    let reply = chat_answered(Ok(answer(Some("hi"), None, vec![], None)), &"m".to_string());
    assert_eq!(reply.status, 200);
    assert!(matches!(reply.body, ReplyBody::Message(_)));
}

#[test]
fn models_are_passed_on_as_text() {
    assert!(matches!(models_sent(Ok(200)), ModelsStep::ReadBody(200)));
    let reply = models_read(200, Ok("{\"data\":[]}".to_string()));
    assert_eq!(reply.status, 200);
    match reply.body {
        ReplyBody::Text(t) => assert_eq!(t, "{\"data\":[]}"),
        _ => panic!("expected text"),
    }
    let reply = models_read(401, Ok("denied".to_string()));
    assert_eq!(reply.status, 401);
}

#[test]
fn models_errors() {
    match models_sent(Err("timeout".to_string())) {
        ModelsStep::Reply(reply) => {
            assert_eq!(reply.status, 500);
            assert_eq!(document(&reply), value(r#"{"error":"Failed to fetch models: timeout"}"#));
        }
        _ => panic!("expected a reply"),
    }
    let reply = models_read(200, Err("eof".to_string()));
    assert_eq!(reply.status, 500);
    assert_eq!(document(&reply), value(r#"{"error":"Failed to read response: eof"}"#));
}

#[test]
fn health_is_ok() {
    let reply = health_reply();
    assert_eq!(reply.status, 200);
    assert_eq!(document(&reply), value(r#"{"status":"ok","service":"regolo-messages-proxy"}"#));
}

#[test]
fn missing_key_is_unauthorized() {
    let reply = missing_key_reply(&String::new()).unwrap();
    assert_eq!(reply.status, 401);
    assert_eq!(document(&reply), value(r#"{"error":"REGOLO_API_KEY not found"}"#));
    assert!(missing_key_reply(&"k".to_string()).is_none());
}
