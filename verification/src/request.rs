use vstd::prelude::*;
use crate::json::{
    Json, JsonModel, compact_text, field, field_text, field_text_or_empty, parsed_document,
    reads_back, to_compact_text,
};
use crate::text::{join, join_with, texts};

verus! {

// ── Anthropic request, as received ──────────────────────────────────────────

/// One message of an Anthropic Messages request.
pub struct Message {
    pub role: String,
    pub content: Json,
}

/// An Anthropic Messages request, without its sampling temperature, which
/// the caller forwards unchanged.
pub struct MessagesRequest {
    pub model: String,
    pub messages: Vec<Message>,
    pub system: Option<Json>,
    pub max_tokens: Option<u32>,
    pub tools: Vec<Json>,
}

// ── OpenAI chat request, as sent ─────────────────────────────────────────────

pub struct OaiFunction {
    pub name: String,
    pub arguments: String,
}

pub struct OaiToolCall {
    pub id: String,
    pub call_type: String,
    pub function: OaiFunction,
}

pub struct ChatMessage {
    pub role: String,
    pub content: Option<String>,
    pub tool_call_id: Option<String>,
    pub tool_calls: Option<Vec<OaiToolCall>>,
}

pub struct OaiFunctionDef {
    pub name: String,
    pub description: String,
    pub parameters: Json,
}

pub struct OaiTool {
    pub tool_type: String,
    pub function: OaiFunctionDef,
}

/// An OpenAI Chat Completions request, without its sampling temperature.
pub struct ChatCompletionRequest {
    pub model: String,
    pub messages: Vec<ChatMessage>,
    pub max_tokens: u32,
    pub stream: bool,
    pub tools: Vec<OaiTool>,
    pub tool_choice: Option<String>,
}

// ── Models ───────────────────────────────────────────────────────────────────

pub struct ToolCallModel {
    pub id: Seq<char>,
    pub call_type: Seq<char>,
    pub name: Seq<char>,
    pub arguments: Seq<char>,
}

pub struct ChatMessageModel {
    pub role: Seq<char>,
    pub content: Option<Seq<char>>,
    pub tool_call_id: Option<Seq<char>>,
    pub tool_calls: Option<Seq<ToolCallModel>>,
}

pub struct ToolModel {
    pub tool_type: Seq<char>,
    pub name: Seq<char>,
    pub description: Seq<char>,
    pub parameters: JsonModel,
}

impl View for OaiToolCall {
    type V = ToolCallModel;

    open spec fn view(&self) -> ToolCallModel {
        ToolCallModel {
            id: self.id@,
            call_type: self.call_type@,
            name: self.function.name@,
            arguments: self.function.arguments@,
        }
    }
}

pub open spec fn calls_view(v: Seq<OaiToolCall>) -> Seq<ToolCallModel> {
    Seq::new(v.len(), |i: int| v[i]@)
}

pub open spec fn opt_text(s: Option<String>) -> Option<Seq<char>> {
    match s {
        Some(t) => Some(t@),
        None => None,
    }
}

impl View for ChatMessage {
    type V = ChatMessageModel;

    open spec fn view(&self) -> ChatMessageModel {
        ChatMessageModel {
            role: self.role@,
            content: opt_text(self.content),
            tool_call_id: opt_text(self.tool_call_id),
            tool_calls: match self.tool_calls {
                Some(v) => Some(calls_view(v@)),
                None => None,
            },
        }
    }
}

pub open spec fn chat_views(v: Seq<ChatMessage>) -> Seq<ChatMessageModel> {
    Seq::new(v.len(), |i: int| v[i]@)
}

impl View for OaiTool {
    type V = ToolModel;

    open spec fn view(&self) -> ToolModel {
        ToolModel {
            tool_type: self.tool_type@,
            name: self.function.name@,
            description: self.function.description@,
            parameters: self.function.parameters@,
        }
    }
}

pub open spec fn tool_views(v: Seq<OaiTool>) -> Seq<ToolModel> {
    Seq::new(v.len(), |i: int| v[i]@)
}

// ── What the translation gives ───────────────────────────────────────────────

/// The texts of the items of an array that have a string field `text`.
pub open spec fn array_texts(a: Seq<JsonModel>) -> Seq<Seq<char>>
    decreases a.len(),
{
    if a.len() == 0 {
        Seq::empty()
    } else {
        array_texts(a.drop_last()) + match field_text(a.last(), "text"@) {
            Some(t) => seq![t],
            None => Seq::empty(),
        }
    }
}

/// The plain text of a content value: a string as it is, an array as the
/// texts of its text-bearing items joined by newlines, anything else as its
/// compact JSON text.
pub open spec fn text_of(v: JsonModel) -> Seq<char> {
    match v {
        JsonModel::Str(s) => s,
        JsonModel::Array(a) => join(array_texts(a), "\n"@),
        _ => compact_text(v),
    }
}

pub open spec fn block_type(b: JsonModel) -> Option<Seq<char>> {
    field_text(b, "type"@)
}

pub open spec fn is_tool_result(b: JsonModel) -> bool {
    block_type(b) == Some("tool_result"@)
}

/// The text a `text` block adds to the message it belongs to.
pub open spec fn block_text_piece(b: JsonModel) -> Seq<Seq<char>> {
    if !is_tool_result(b) && block_type(b) == Some("text"@) {
        match field_text(b, "text"@) {
            Some(t) => seq![t],
            None => Seq::empty(),
        }
    } else {
        Seq::empty()
    }
}

/// The `input` of a `tool_use` block, an empty object where it has none.
pub open spec fn tool_input(b: JsonModel) -> JsonModel {
    match field(b, "input"@) {
        Some(x) => x,
        None => JsonModel::Object(Seq::empty()),
    }
}

/// The OpenAI tool call for a `tool_use` block.
pub open spec fn tool_call_of(b: JsonModel) -> ToolCallModel {
    ToolCallModel {
        id: field_text_or_empty(b, "id"@),
        call_type: "function"@,
        name: field_text_or_empty(b, "name"@),
        arguments: compact_text(tool_input(b)),
    }
}

/// A tool call's arguments read back as the block's `input`, where that
/// input is a document `serde_json` reads back as itself.
pub open spec fn arguments_read_back(b: JsonModel) -> bool {
    reads_back(tool_input(b)) ==> parsed_document(compact_text(tool_input(b))) == Some(
        tool_input(b),
    )
}

/// The arguments of every tool call that a message's content gives read
/// back as the input of its block (see [`arguments_read_back`]).
pub open spec fn content_arguments_read_back(content: JsonModel) -> bool {
    match content {
        JsonModel::Array(a) => forall|k: int|
            0 <= k < a.len() && block_call_piece(a[k]).len() > 0 ==> arguments_read_back(
                #[trigger] a[k],
            ),
        _ => true,
    }
}

pub open spec fn block_call_piece(b: JsonModel) -> Seq<ToolCallModel> {
    if !is_tool_result(b) && block_type(b) == Some("tool_use"@) {
        seq![tool_call_of(b)]
    } else {
        Seq::empty()
    }
}

pub open spec fn block_texts(a: Seq<JsonModel>) -> Seq<Seq<char>>
    decreases a.len(),
{
    if a.len() == 0 {
        Seq::empty()
    } else {
        block_texts(a.drop_last()) + block_text_piece(a.last())
    }
}

pub open spec fn block_calls(a: Seq<JsonModel>) -> Seq<ToolCallModel>
    decreases a.len(),
{
    if a.len() == 0 {
        Seq::empty()
    } else {
        block_calls(a.drop_last()) + block_call_piece(a.last())
    }
}

/// Whether some block is not a tool result.
pub open spec fn has_other_block(a: Seq<JsonModel>) -> bool
    decreases a.len(),
{
    a.len() > 0 && (has_other_block(a.drop_last()) || !is_tool_result(a.last()))
}

/// The text of a tool result's `content`: a string as it is, anything else
/// through [`text_of`], nothing where it is missing.
pub open spec fn tool_result_text(b: JsonModel) -> Seq<char> {
    match field(b, "content"@) {
        Some(JsonModel::Str(s)) => s,
        Some(v) => text_of(v),
        None => Seq::empty(),
    }
}

/// The `tool` message for a `tool_result` block.
pub open spec fn tool_result_message(b: JsonModel) -> ChatMessageModel {
    ChatMessageModel {
        role: "tool"@,
        content: Some(tool_result_text(b)),
        tool_call_id: Some(field_text_or_empty(b, "tool_use_id"@)),
        tool_calls: None,
    }
}

pub open spec fn tool_result_messages(a: Seq<JsonModel>) -> Seq<ChatMessageModel>
    decreases a.len(),
{
    if a.len() == 0 {
        Seq::empty()
    } else {
        tool_result_messages(a.drop_last()) + if is_tool_result(a.last()) {
            seq![tool_result_message(a.last())]
        } else {
            Seq::empty()
        }
    }
}

/// The one message that gathers the text and tool-use blocks of a message.
pub open spec fn gathered_message(role: Seq<char>, a: Seq<JsonModel>) -> ChatMessageModel {
    let content = join(block_texts(a), "\n"@);
    ChatMessageModel {
        role,
        content: if content.len() == 0 {
            None
        } else {
            Some(content)
        },
        tool_call_id: None,
        tool_calls: if block_calls(a).len() == 0 {
            None
        } else {
            Some(block_calls(a))
        },
    }
}

/// The chat messages for one Anthropic message with role `role`.
pub open spec fn message_outputs(role: Seq<char>, content: JsonModel) -> Seq<ChatMessageModel> {
    match content {
        JsonModel::Array(a) => (if has_other_block(a) {
            seq![gathered_message(role, a)]
        } else {
            Seq::empty()
        }) + tool_result_messages(a),
        _ => seq![
            ChatMessageModel {
                role,
                content: Some(text_of(content)),
                tool_call_id: None,
                tool_calls: None,
            },
        ],
    }
}

pub open spec fn message_model(m: Message) -> (Seq<char>, JsonModel) {
    (m.role@, m.content@)
}

pub open spec fn messages_outputs(ms: Seq<(Seq<char>, JsonModel)>) -> Seq<ChatMessageModel>
    decreases ms.len(),
{
    if ms.len() == 0 {
        Seq::empty()
    } else {
        messages_outputs(ms.drop_last()) + message_outputs(ms.last().0, ms.last().1)
    }
}

/// The system message, where the system prompt has text.
pub open spec fn system_outputs(system: Option<JsonModel>) -> Seq<ChatMessageModel> {
    match system {
        Some(s) => if text_of(s).len() == 0 {
            Seq::empty()
        } else {
            seq![
                ChatMessageModel {
                    role: "system"@,
                    content: Some(text_of(s)),
                    tool_call_id: None,
                    tool_calls: None,
                },
            ]
        },
        None => Seq::empty(),
    }
}

pub open spec fn opt_json(v: Option<Json>) -> Option<JsonModel> {
    match v {
        Some(j) => Some(j@),
        None => None,
    }
}

pub open spec fn request_messages(req: MessagesRequest) -> Seq<(Seq<char>, JsonModel)> {
    Seq::new(req.messages@.len(), |i: int| message_model(req.messages@[i]))
}

/// The chat messages for a whole request: the system message first, then
/// the messages in order.
pub open spec fn chat_messages_for(req: MessagesRequest) -> Seq<ChatMessageModel> {
    system_outputs(opt_json(req.system)) + messages_outputs(request_messages(req))
}

/// The literals used as keys and tags differ from each other.
pub proof fn lemma_literals_differ()
    ensures
        "type"@ != "text"@,
        "type"@ != "id"@,
        "type"@ != "name"@,
        "type"@ != "input"@,
        "type"@ != "tool_use_id"@,
        "type"@ != "content"@,
        "id"@ != "name"@,
        "id"@ != "input"@,
        "name"@ != "input"@,
        "tool_use_id"@ != "content"@,
        "text"@ != "tool_result"@,
        "text"@ != "tool_use"@,
        "tool_use"@ != "tool_result"@,
        "tool_use"@ != "max_tokens"@,
        "tool_use"@ != "end_turn"@,
{
    reveal_strlit("type");
    reveal_strlit("text");
    reveal_strlit("id");
    reveal_strlit("name");
    reveal_strlit("input");
    reveal_strlit("tool_use_id");
    reveal_strlit("content");
    reveal_strlit("tool_result");
    reveal_strlit("tool_use");
    reveal_strlit("max_tokens");
    reveal_strlit("end_turn");
    assert("type"@[1] != "text"@[1]);
    assert("id"@[0] != "name"@[0]);
    assert("id"@.len() != "input"@.len());
    assert("name"@[0] != "input"@[0]);
    assert("tool_use_id"@[0] != "content"@[0]);
    assert("tool_use"@[5] != "tool_result"@[5]);
    assert("tool_use"@[0] != "end_turn"@[0]);
}

// ── The translation ──────────────────────────────────────────────────────────

/// The plain text of a content value (see [`text_of`]).
pub fn extract_text(value: &Json) -> (r: String)
    ensures
        r@ == text_of(value@),
{
    match value {
        Json::Str(s) => s.clone(),
        Json::Array(items) => {
            let key = "text".to_string();
            let mut parts: Vec<String> = Vec::new();
            let mut i: usize = 0;
            while i < items.len()
                invariant
                    0 <= i <= items.len(),
                    *value == Json::Array(*items),
                    key@ == "text"@,
                    texts(parts@) == array_texts(value@->Array_0.take(i as int)),
                decreases items.len() - i,
            {
                let ghost before = parts@;
                let ghost a = value@->Array_0;
                if let Some(t) = items[i].get_str(&key) {
                    parts.push(t.clone());
                    assert(texts(parts@) =~= texts(before) + seq![t@]);
                } else {
                    assert(texts(parts@) =~= texts(before));
                }
                assert(a.take(i + 1).drop_last() =~= a.take(i as int));
                assert(a[i as int] == items[i as int]@);
                i = i + 1;
            }
            assert(value@->Array_0.take(items.len() as int) =~= value@->Array_0);
            join_with(&parts, "\n")
        },
        _ => to_compact_text(value),
    }
}

/// The text of field `key`, or an empty string.
fn text_field_or_empty(b: &Json, key: &str) -> (r: String)
    ensures
        r@ == field_text_or_empty(b@, key@),
{
    let k = key.to_string();
    match b.get_str(&k) {
        Some(s) => s.clone(),
        None => String::new(),
    }
}

/// The OpenAI tool call for a `tool_use` block (see [`tool_call_of`]).
fn tool_call_for(b: &Json) -> (r: OaiToolCall)
    ensures
        r@ == tool_call_of(b@),
        arguments_read_back(b@),
{
    let id = text_field_or_empty(b, "id");
    let name = text_field_or_empty(b, "name");
    let input_key = "input".to_string();
    let arguments = match b.get(&input_key) {
        Some(x) => to_compact_text(x),
        None => {
            let empty = Json::Object(Vec::new());
            assert(empty@ == JsonModel::Object(Seq::empty())) by {
                assert(empty@->Object_0 =~= Seq::<(Seq<char>, JsonModel)>::empty());
            }
            assert(reads_back(empty@));
            to_compact_text(&empty)
        },
    };
    OaiToolCall { id, call_type: "function".to_string(), function: OaiFunction { name, arguments } }
}

/// The `tool` message for a `tool_result` block (see [`tool_result_message`]).
fn tool_result_for(b: &Json) -> (r: ChatMessage)
    ensures
        r@ == tool_result_message(b@),
{
    let tool_call_id = text_field_or_empty(b, "tool_use_id");
    let content_key = "content".to_string();
    let content = match b.get(&content_key) {
        Some(Json::Str(s)) => s.clone(),
        Some(v) => extract_text(v),
        None => String::new(),
    };
    ChatMessage {
        role: "tool".to_string(),
        content: Some(content),
        tool_call_id: Some(tool_call_id),
        tool_calls: None,
    }
}

proof fn lemma_chat_views_push(v: Seq<ChatMessage>, m: ChatMessage)
    ensures
        chat_views(v.push(m)) == chat_views(v).push(m@),
{
    assert(chat_views(v.push(m)) =~= chat_views(v).push(m@));
}

proof fn lemma_chat_views_concat(v: Seq<ChatMessage>, w: Seq<ChatMessage>)
    ensures
        chat_views(v + w) == chat_views(v) + chat_views(w),
{
    assert(chat_views(v + w) =~= chat_views(v) + chat_views(w));
}

/// Appends the chat messages for one Anthropic message (see
/// [`message_outputs`]).
fn push_message_outputs(out: &mut Vec<ChatMessage>, m: &Message)
    ensures
        chat_views(final(out)@) == chat_views(old(out)@) + message_outputs(m.role@, m.content@),
        content_arguments_read_back(m.content@),
{
    match &m.content {
        Json::Array(blocks) => {
            let type_key = "type".to_string();
            let text_key = "text".to_string();
            let tool_result_tag = "tool_result".to_string();
            let tool_use_tag = "tool_use".to_string();
            let ghost a = m.content@->Array_0;
            let mut parts: Vec<String> = Vec::new();
            let mut calls: Vec<OaiToolCall> = Vec::new();
            let mut results: Vec<ChatMessage> = Vec::new();
            let mut other = false;
            let mut i: usize = 0;
            while i < blocks.len()
                invariant
                    0 <= i <= blocks.len(),
                    m.content == Json::Array(*blocks),
                    a == m.content@->Array_0,
                    type_key@ == "type"@,
                    text_key@ == "text"@,
                    tool_result_tag@ == "tool_result"@,
                    tool_use_tag@ == "tool_use"@,
                    texts(parts@) == block_texts(a.take(i as int)),
                    calls_view(calls@) == block_calls(a.take(i as int)),
                    chat_views(results@) == tool_result_messages(a.take(i as int)),
                    other == has_other_block(a.take(i as int)),
                    forall|k: int|
                        0 <= k < i && block_call_piece(a[k]).len() > 0 ==> arguments_read_back(
                            #[trigger] a[k],
                        ),
                decreases blocks.len() - i,
            {
                let b = &blocks[i];
                assert(a[i as int] == b@);
                assert(a.take(i + 1).drop_last() =~= a.take(i as int));
                assert(a.take(i + 1).last() == b@);
                let ghost parts0 = parts@;
                let ghost calls0 = calls@;
                let ghost results0 = results@;
                let tag = b.get_str(&type_key);
                let is_result = match tag {
                    Some(t) => *t == tool_result_tag,
                    None => false,
                };
                assert(is_result == is_tool_result(b@));
                if is_result {
                    let r = tool_result_for(b);
                    results.push(r);
                    proof {
                        lemma_chat_views_push(results0, r);
                    }
                } else {
                    other = true;
                    if let Some(t) = tag {
                        proof {
                            lemma_literals_differ();
                        }
                        if *t == text_key {
                            if let Some(x) = b.get_str(&text_key) {
                                parts.push(x.clone());
                            }
                        } else if *t == tool_use_tag {
                            let c = tool_call_for(b);
                            calls.push(c);
                        }
                    }
                    assert(chat_views(results@) =~= chat_views(results0));
                }
                assert(texts(parts@) =~= texts(parts0) + block_text_piece(b@));
                assert(calls_view(calls@) =~= calls_view(calls0) + block_call_piece(b@));
                i = i + 1;
            }
            assert(a.take(blocks.len() as int) =~= a);
            let ghost out0 = out@;
            if other {
                let content = join_with(&parts, "\n");
                let content = if content.as_str().is_empty() {
                    None
                } else {
                    Some(content)
                };
                let tool_calls = if calls.len() == 0 {
                    None
                } else {
                    Some(calls)
                };
                let gathered = ChatMessage {
                    role: m.role.clone(),
                    content,
                    tool_call_id: None,
                    tool_calls,
                };
                assert(gathered@ == gathered_message(m.role@, a));
                out.push(gathered);
                proof {
                    lemma_chat_views_push(out0, gathered);
                }
            }
            let ghost out1 = out@;
            let ghost results1 = results@;
            out.append(&mut results);
            proof {
                lemma_chat_views_concat(out1, results1);
            }
        },
        _ => {
            let text = extract_text(&m.content);
            let msg = ChatMessage {
                role: m.role.clone(),
                content: Some(text),
                tool_call_id: None,
                tool_calls: None,
            };
            let ghost out0 = out@;
            out.push(msg);
            proof {
                lemma_chat_views_push(out0, msg);
            }
        },
    }
}

/// The chat messages for a request: the system prompt first, where it has
/// text, then each message in order (see [`chat_messages_for`]). The
/// arguments of each tool call read back as the input of its block, where
/// that input has no float, sorted keys and no deep nesting.
pub fn build_chat_messages(req: &MessagesRequest) -> (out: Vec<ChatMessage>)
    ensures
        chat_views(out@) == chat_messages_for(*req),
        forall|i: int|
            0 <= i < req.messages.len() ==> content_arguments_read_back(
                #[trigger] request_messages(*req)[i].1,
            ),
        match req.system {
            Some(s) => text_of(s@).len() > 0 ==> out.len() >= 1 && out[0]@ == (ChatMessageModel {
                role: "system"@,
                content: Some(text_of(s@)),
                tool_call_id: None,
                tool_calls: None,
            }),
            None => true,
        },
{
    let mut out: Vec<ChatMessage> = Vec::new();
    if let Some(system) = &req.system {
        let text = extract_text(system);
        if !text.as_str().is_empty() {
            let msg = ChatMessage {
                role: "system".to_string(),
                content: Some(text),
                tool_call_id: None,
                tool_calls: None,
            };
            out.push(msg);
        }
    }
    assert(chat_views(out@) =~= system_outputs(opt_json(req.system)));
    let ghost ms = request_messages(*req);
    let mut i: usize = 0;
    while i < req.messages.len()
        invariant
            0 <= i <= req.messages.len(),
            ms == request_messages(*req),
            chat_views(out@) == system_outputs(opt_json(req.system)) + messages_outputs(
                ms.take(i as int),
            ),
            forall|j: int| 0 <= j < i ==> content_arguments_read_back(#[trigger] ms[j].1),
        decreases req.messages.len() - i,
    {
        let ghost out0 = out@;
        push_message_outputs(&mut out, &req.messages[i]);
        assert(ms.take(i + 1).drop_last() =~= ms.take(i as int));
        assert(ms.take(i + 1).last() == message_model(req.messages@[i as int]));
        i = i + 1;
    }
    assert(ms.take(req.messages.len() as int) =~= ms);
    assert(out.len() > 0 ==> chat_views(out@)[0] == out[0]@);
    out
}

/// The parameters schema of a tool that gives none: an object schema with no
/// properties.
pub open spec fn default_parameters() -> JsonModel {
    JsonModel::Object(
        seq![
            ("type"@, JsonModel::Str("object"@)),
            ("properties"@, JsonModel::Object(Seq::empty())),
        ],
    )
}

/// The OpenAI function tool for an Anthropic tool definition.
pub open spec fn tool_for(t: JsonModel) -> ToolModel {
    ToolModel {
        tool_type: "function"@,
        name: field_text_or_empty(t, "name"@),
        description: field_text_or_empty(t, "description"@),
        parameters: match field(t, "input_schema"@) {
            Some(p) => p,
            None => default_parameters(),
        },
    }
}

pub open spec fn json_views(v: Seq<Json>) -> Seq<JsonModel> {
    Seq::new(v.len(), |i: int| v[i]@)
}

fn default_parameters_json() -> (r: Json)
    ensures
        r@ == default_parameters(),
{
    let properties = Json::Object(Vec::new());
    assert(properties@ == JsonModel::Object(Seq::empty())) by {
        assert(properties@->Object_0 =~= Seq::<(Seq<char>, JsonModel)>::empty());
    }
    let object_tag = "object".to_string();
    let kind = Json::Str(object_tag);
    assert(kind@ == JsonModel::Str("object"@));
    let type_key = "type".to_string();
    let properties_key = "properties".to_string();
    let mut fields: Vec<(String, Json)> = Vec::new();
    fields.push((type_key, kind));
    fields.push((properties_key, properties));
    let r = Json::Object(fields);
    assert(r@->Object_0[0] == ("type"@, JsonModel::Str("object"@)));
    assert(r@->Object_0[1] == ("properties"@, JsonModel::Object(Seq::empty())));
    assert(r@->Object_0 =~= default_parameters()->Object_0);
    r
}

/// The OpenAI function tools for Anthropic tool definitions, one for each,
/// in order.
pub fn convert_tools(tools: &Vec<Json>) -> (out: Vec<OaiTool>)
    ensures
        out.len() == tools.len(),
        forall|i: int| 0 <= i < tools.len() ==> #[trigger] out[i]@ == tool_for(tools[i]@),
        forall|i: int|
            0 <= i < tools.len() && field(tools[i]@, "input_schema"@) is Some ==> (#[trigger] out[i]@).parameters
                == field(tools[i]@, "input_schema"@)->0,
{
    let schema_key = "input_schema".to_string();
    let mut out: Vec<OaiTool> = Vec::new();
    let mut i: usize = 0;
    while i < tools.len()
        invariant
            0 <= i <= tools.len(),
            schema_key@ == "input_schema"@,
            out.len() == i,
            forall|j: int| 0 <= j < i ==> #[trigger] out[j]@ == tool_for(tools[j]@),
        decreases tools.len() - i,
    {
        let t = &tools[i];
        let parameters = match t.get(&schema_key) {
            Some(p) => p.deep_copy(),
            None => default_parameters_json(),
        };
        let tool = OaiTool {
            tool_type: "function".to_string(),
            function: OaiFunctionDef {
                name: text_field_or_empty(t, "name"),
                description: text_field_or_empty(t, "description"),
                parameters,
            },
        };
        out.push(tool);
        i = i + 1;
    }
    out
}

/// The chat request for a Messages request: same model, the translated
/// messages and tools, at most 4096 tokens where none is asked for, no
/// streaming, and `tool_choice` "auto" where `offer_tool_choice` holds and
/// there are tools.
pub fn build_chat_request(req: &MessagesRequest, offer_tool_choice: bool) -> (r:
    ChatCompletionRequest)
    ensures
        r.model@ == req.model@,
        chat_views(r.messages@) == chat_messages_for(*req),
        forall|i: int|
            0 <= i < req.messages.len() ==> content_arguments_read_back(
                #[trigger] request_messages(*req)[i].1,
            ),
        r.max_tokens == match req.max_tokens {
            Some(n) => n,
            None => 4096,
        },
        !r.stream,
        r.tools.len() == req.tools.len(),
        forall|i: int| 0 <= i < req.tools.len() ==> #[trigger] r.tools[i]@ == tool_for(req.tools[i]@),
        opt_text(r.tool_choice) == if offer_tool_choice && req.tools.len() > 0 {
            Some("auto"@)
        } else {
            None
        },
{
    let has_tools = req.tools.len() > 0;
    ChatCompletionRequest {
        model: req.model.clone(),
        messages: build_chat_messages(req),
        max_tokens: match req.max_tokens {
            Some(n) => n,
            None => 4096,
        },
        stream: false,
        tools: convert_tools(&req.tools),
        tool_choice: if offer_tool_choice && has_tools {
            Some("auto".to_string())
        } else {
            None
        },
    }
}

} // verus!
