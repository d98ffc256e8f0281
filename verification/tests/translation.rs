use regolo::json::{Json, JsonNumber};
use regolo::request::{
    build_chat_messages, build_chat_request, convert_tools, extract_text, ChatMessage, Message,
    MessagesRequest,
};

fn s(t: &str) -> Json {
    Json::Str(t.to_string())
}

fn obj(fields: Vec<(&str, Json)>) -> Json {
    Json::Object(fields.into_iter().map(|(k, v)| (k.to_string(), v)).collect())
}

fn num(n: u64) -> Json {
    Json::Number(JsonNumber::Unsigned(n))
}

fn to_value(j: &Json) -> serde_json::Value {
    match j {
        Json::Null => serde_json::Value::Null,
        Json::Bool(b) => serde_json::Value::Bool(*b),
        Json::Number(JsonNumber::Unsigned(u)) => serde_json::Value::Number((*u).into()),
        Json::Number(JsonNumber::Negative(i)) => serde_json::Value::Number((*i).into()),
        Json::Number(JsonNumber::Float(n)) => serde_json::Value::Number(n.clone()),
        Json::Str(t) => serde_json::Value::String(t.clone()),
        Json::Array(a) => serde_json::Value::Array(a.iter().map(to_value).collect()),
        Json::Object(f) => {
            serde_json::Value::Object(f.iter().map(|(k, v)| (k.clone(), to_value(v))).collect())
        }
    }
}

fn value(text: &str) -> serde_json::Value {
    serde_json::from_str(text).unwrap()
}

fn request(system: Option<Json>, messages: Vec<(&str, Json)>, tools: Vec<Json>) -> MessagesRequest {
    MessagesRequest {
        model: "brick-v1-beta".to_string(),
        messages: messages
            .into_iter()
            .map(|(role, content)| Message { role: role.to_string(), content })
            .collect(),
        system,
        max_tokens: None,
        tools,
    }
}

fn shape(m: &ChatMessage) -> (String, Option<String>, Option<String>, Option<Vec<(String, String, String, String)>>) {
    (
        m.role.clone(),
        m.content.clone(),
        m.tool_call_id.clone(),
        m.tool_calls.as_ref().map(|cs| {
            cs.iter()
                .map(|c| {
                    (c.id.clone(), c.call_type.clone(), c.function.name.clone(), c.function.arguments.clone())
                })
                .collect()
        }),
    )
}

fn text_message(role: &str, content: &str) -> (String, Option<String>, Option<String>, Option<Vec<(String, String, String, String)>>) {
    (role.to_string(), Some(content.to_string()), None, None)
}

#[test]
fn extract_text_of_a_string_is_the_string() {
    assert_eq!(extract_text(&s("hello\nworld")), "hello\nworld");
}

#[test]
fn extract_text_joins_the_text_items_of_an_array() {
    let content = Json::Array(vec![
        obj(vec![("type", s("text")), ("text", s("first"))]),
        obj(vec![("type", s("image"))]),
        obj(vec![("text", s("second"))]),
        obj(vec![("text", num(3))]),
    ]);
    assert_eq!(extract_text(&content), "first\nsecond");
}

#[test]
fn extract_text_of_an_empty_array_is_empty() {
    assert_eq!(extract_text(&Json::Array(vec![])), "");
}

#[test]
fn extract_text_prints_other_values_as_compact_json() {
    assert_eq!(extract_text(&obj(vec![("k", num(1))])), "{\"k\":1}");
    assert_eq!(extract_text(&Json::Null), "null");
    assert_eq!(extract_text(&num(42)), "42");
    assert_eq!(extract_text(&Json::Bool(false)), "false");
}

#[test]
fn system_prompt_comes_first() {
    let req = request(Some(s("be brief")), vec![("user", s("hi"))], vec![]);
    let out: Vec<_> = build_chat_messages(&req).iter().map(shape).collect();
    assert_eq!(out, vec![text_message("system", "be brief"), text_message("user", "hi")]);
}

#[test]
fn system_prompt_as_blocks_is_joined() {
    let system = Json::Array(vec![
        obj(vec![("type", s("text")), ("text", s("a"))]),
        obj(vec![("type", s("text")), ("text", s("b"))]),
    ]);
    let req = request(Some(system), vec![], vec![]);
    let out: Vec<_> = build_chat_messages(&req).iter().map(shape).collect();
    assert_eq!(out, vec![text_message("system", "a\nb")]);
}

#[test]
fn empty_system_prompt_is_dropped() {
    let req = request(Some(s("")), vec![("user", s("hi"))], vec![]);
    let out: Vec<_> = build_chat_messages(&req).iter().map(shape).collect();
    assert_eq!(out, vec![text_message("user", "hi")]);
}

#[test]
fn plain_text_messages_pass_through_in_order() {
    let req = request(
        None,
        vec![("user", s("one")), ("assistant", s("two")), ("user", s("three"))],
        vec![],
    );
    let out: Vec<_> = build_chat_messages(&req).iter().map(shape).collect();
    assert_eq!(
        out,
        vec![text_message("user", "one"), text_message("assistant", "two"), text_message("user", "three")]
    );
}

#[test]
fn non_text_content_is_printed_as_json() {
    let req = request(None, vec![("user", num(7))], vec![]);
    let out: Vec<_> = build_chat_messages(&req).iter().map(shape).collect();
    assert_eq!(out, vec![text_message("user", "7")]);
}

#[test]
fn tool_use_blocks_become_tool_calls() {
    let content = Json::Array(vec![
        obj(vec![("type", s("text")), ("text", s("let me look"))]),
        obj(vec![
            ("type", s("tool_use")),
            ("id", s("call_1")),
            ("name", s("read_file")),
            ("input", obj(vec![("path", s("a.txt"))])),
        ]),
        obj(vec![("type", s("tool_use")), ("id", s("call_2")), ("name", s("ls"))]),
    ]);
    let req = request(None, vec![("assistant", content)], vec![]);
    let out: Vec<_> = build_chat_messages(&req).iter().map(shape).collect();
    assert_eq!(
        out,
        vec![(
            "assistant".to_string(),
            Some("let me look".to_string()),
            None,
            Some(vec![
                (
                    "call_1".to_string(),
                    "function".to_string(),
                    "read_file".to_string(),
                    "{\"path\":\"a.txt\"}".to_string()
                ),
                ("call_2".to_string(), "function".to_string(), "ls".to_string(), "{}".to_string()),
            ])
        )]
    );
}

#[test]
fn tool_use_without_id_or_name_gets_empty_ones() {
    let content = Json::Array(vec![obj(vec![("type", s("tool_use")), ("id", num(5))])]);
    let req = request(None, vec![("assistant", content)], vec![]);
    let out: Vec<_> = build_chat_messages(&req).iter().map(shape).collect();
    assert_eq!(
        out,
        vec![(
            "assistant".to_string(),
            None,
            None,
            Some(vec![(String::new(), "function".to_string(), String::new(), "{}".to_string())])
        )]
    );
}

#[test]
fn tool_results_become_tool_messages() {
    let content = Json::Array(vec![obj(vec![
        ("type", s("tool_result")),
        ("tool_use_id", s("call_1")),
        ("content", s("file body")),
    ])]);
    let req = request(None, vec![("user", content)], vec![]);
    let out: Vec<_> = build_chat_messages(&req).iter().map(shape).collect();
    assert_eq!(
        out,
        vec![("tool".to_string(), Some("file body".to_string()), Some("call_1".to_string()), None)]
    );
}

#[test]
fn tool_result_content_blocks_and_missing_fields() {
    let content = Json::Array(vec![
        obj(vec![
            ("type", s("tool_result")),
            ("tool_use_id", s("a")),
            ("content", Json::Array(vec![obj(vec![("type", s("text")), ("text", s("x"))])])),
        ]),
        obj(vec![("type", s("tool_result"))]),
        obj(vec![("type", s("tool_result")), ("tool_use_id", s("c")), ("content", Json::Bool(true))]),
    ]);
    let req = request(None, vec![("user", content)], vec![]);
    let out: Vec<_> = build_chat_messages(&req).iter().map(shape).collect();
    assert_eq!(
        out,
        vec![
            ("tool".to_string(), Some("x".to_string()), Some("a".to_string()), None),
            ("tool".to_string(), Some(String::new()), Some(String::new()), None),
            ("tool".to_string(), Some("true".to_string()), Some("c".to_string()), None),
        ]
    );
}

#[test]
fn gathered_message_comes_before_tool_results() {
    let content = Json::Array(vec![
        obj(vec![("type", s("tool_result")), ("tool_use_id", s("a")), ("content", s("A"))]),
        obj(vec![("type", s("text")), ("text", s("and then"))]),
        obj(vec![("type", s("tool_result")), ("tool_use_id", s("b")), ("content", s("B"))]),
    ]);
    let req = request(None, vec![("user", content)], vec![]);
    let out: Vec<_> = build_chat_messages(&req).iter().map(shape).collect();
    assert_eq!(
        out,
        vec![
            text_message("user", "and then"),
            ("tool".to_string(), Some("A".to_string()), Some("a".to_string()), None),
            ("tool".to_string(), Some("B".to_string()), Some("b".to_string()), None),
        ]
    );
}

#[test]
fn unknown_blocks_still_give_a_message() {
    let content = Json::Array(vec![obj(vec![("type", s("image"))]), s("loose")]);
    let req = request(None, vec![("user", content)], vec![]);
    let out: Vec<_> = build_chat_messages(&req).iter().map(shape).collect();
    assert_eq!(out, vec![("user".to_string(), None, None, None)]);
}

#[test]
fn empty_block_list_gives_no_message() {
    let req = request(None, vec![("user", Json::Array(vec![]))], vec![]);
    assert_eq!(build_chat_messages(&req).len(), 0);
}

#[test]
fn tools_are_converted_one_for_one() {
    let tools = vec![
        obj(vec![
            ("name", s("read_file")),
            ("description", s("Reads a file")),
            (
                "input_schema",
                obj(vec![
                    ("type", s("object")),
                    ("required", Json::Array(vec![s("path")])),
                    ("maxProperties", num(3)),
                    ("additionalProperties", Json::Bool(false)),
                    ("examples", Json::Null),
                ]),
            ),
        ]),
        obj(vec![("name", s("ls"))]),
    ];
    let out = convert_tools(&tools);
    assert_eq!(out.len(), 2);
    assert_eq!(out[0].tool_type, "function");
    assert_eq!(out[0].function.name, "read_file");
    assert_eq!(out[0].function.description, "Reads a file");
    assert_eq!(to_value(&out[0].function.parameters), value(
            r#"{"type":"object","required":["path"],"maxProperties":3,"additionalProperties":false,"examples":null}"#
        ));
    assert_eq!(out[1].function.name, "ls");
    assert_eq!(out[1].function.description, "");
    assert_eq!(to_value(&out[1].function.parameters), value(r#"{"type":"object","properties":{}}"#));
}

#[test]
fn chat_request_defaults() {
    let req = request(None, vec![("user", s("hi"))], vec![]);
    let chat = build_chat_request(&req, true);
    assert_eq!(chat.model, "brick-v1-beta");
    assert_eq!(chat.max_tokens, 4096);
    assert!(!chat.stream);
    assert!(chat.tools.is_empty());
    assert_eq!(chat.tool_choice, None);
    assert_eq!(chat.messages.len(), 1);
}

#[test]
fn chat_request_with_tools_offers_auto_choice() {
    let mut req = request(None, vec![("user", s("hi"))], vec![obj(vec![("name", s("ls"))])]);
    req.max_tokens = Some(100);
    let chat = build_chat_request(&req, true);
    assert_eq!(chat.max_tokens, 100);
    assert_eq!(chat.tools.len(), 1);
    assert_eq!(chat.tool_choice, Some("auto".to_string()));
    let standalone = build_chat_request(&req, false);
    assert_eq!(standalone.tool_choice, None);
    assert_eq!(standalone.tools.len(), 1);
}

#[test]
fn tool_arguments_read_back_as_the_input() {
    let input = obj(vec![
        ("a", Json::Array(vec![num(1), Json::Number(JsonNumber::Negative(-2)), Json::Null])),
        ("b", obj(vec![("deep", obj(vec![("x", Json::Bool(true))]))])),
        ("c", s("quote \" and \\ and \u{1F600}")),
    ]);
    let content = Json::Array(vec![obj(vec![
        ("type", s("tool_use")),
        ("id", s("t")),
        ("name", s("f")),
        ("input", input),
    ])]);
    let req = request(None, vec![("assistant", content)], vec![]);
    let out = build_chat_messages(&req);
    let arguments = &out[0].tool_calls.as_ref().unwrap()[0].function.arguments;
    let expected = match &req.messages[0].content {
        Json::Array(blocks) => match &blocks[0] {
            Json::Object(fields) => to_value(&fields[3].1),
            _ => panic!("not an object"),
        },
        _ => panic!("not an array"),
    };
    assert_eq!(serde_json::from_str::<serde_json::Value>(arguments).unwrap(), expected);
}

#[test]
fn float_content_is_printed() {
    let f = Json::Number(JsonNumber::Float(serde_json::Number::from_f64(1.5).unwrap()));
    assert_eq!(extract_text(&f), "1.5");
    assert_eq!(extract_text(&Json::Number(JsonNumber::Negative(-12))), "-12");
}
