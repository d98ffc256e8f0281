use vstd::prelude::*;
use crate::json::{Json, JsonModel, parse_document, parsed_document};

verus! {

// ── OpenAI chat response, as received ────────────────────────────────────────

pub struct ResponseFunction {
    pub name: String,
    pub arguments: String,
}

pub struct ResponseToolCall {
    pub id: String,
    pub function: ResponseFunction,
}

pub struct ChatChoiceMessage {
    pub content: Option<String>,
    pub reasoning_content: Option<String>,
    pub tool_calls: Vec<ResponseToolCall>,
}

pub struct ChatChoice {
    pub message: ChatChoiceMessage,
    pub finish_reason: Option<String>,
}

pub struct ChatUsage {
    pub prompt_tokens: u32,
    pub completion_tokens: u32,
}

pub struct ChatCompletionResponse {
    pub choices: Vec<ChatChoice>,
    pub model: Option<String>,
    pub usage: Option<ChatUsage>,
}

// ── Anthropic response, as sent ──────────────────────────────────────────────

pub struct AnthropicUsage {
    pub input_tokens: u32,
    pub output_tokens: u32,
}

pub struct AnthropicResponse {
    pub id: String,
    pub msg_type: String,
    pub role: String,
    pub model: String,
    pub content: Vec<Json>,
    pub stop_reason: String,
    pub stop_sequence: Option<String>,
    pub usage: AnthropicUsage,
}

pub struct ReplyModel {
    pub id: Seq<char>,
    pub msg_type: Seq<char>,
    pub role: Seq<char>,
    pub model: Seq<char>,
    pub content: Seq<JsonModel>,
    pub stop_reason: Seq<char>,
    pub stop_sequence: Option<Seq<char>>,
    pub input_tokens: u32,
    pub output_tokens: u32,
}

impl View for AnthropicResponse {
    type V = ReplyModel;

    open spec fn view(&self) -> ReplyModel {
        ReplyModel {
            id: self.id@,
            msg_type: self.msg_type@,
            role: self.role@,
            model: self.model@,
            content: Seq::new(self.content.len() as nat, |i: int| self.content[i]@),
            stop_reason: self.stop_reason@,
            stop_sequence: match self.stop_sequence {
                Some(s) => Some(s@),
                None => None,
            },
            input_tokens: self.usage.input_tokens,
            output_tokens: self.usage.output_tokens,
        }
    }
}

// ── What the translation gives ───────────────────────────────────────────────

/// An Anthropic text block.
pub open spec fn text_block(t: Seq<char>) -> JsonModel {
    JsonModel::Object(seq![("type"@, JsonModel::Str("text"@)), ("text"@, JsonModel::Str(t))])
}

/// An Anthropic tool-use block.
pub open spec fn tool_use_block(id: Seq<char>, name: Seq<char>, input: JsonModel) -> JsonModel {
    JsonModel::Object(
        seq![
            ("type"@, JsonModel::Str("tool_use"@)),
            ("id"@, JsonModel::Str(id)),
            ("name"@, JsonModel::Str(name)),
            ("input"@, input),
        ],
    )
}

/// The document that a tool call's arguments hold, an empty object where
/// they are no JSON.
pub open spec fn arguments_document(arguments: Seq<char>) -> JsonModel {
    match parsed_document(arguments) {
        Some(d) => d,
        None => JsonModel::Object(Seq::empty()),
    }
}

pub open spec fn tool_use_block_for(tc: ResponseToolCall) -> JsonModel {
    tool_use_block(tc.id@, tc.function.name@, arguments_document(tc.function.arguments@))
}

/// The answer's text: its content, else its reasoning, else nothing.
pub open spec fn answer_text(m: ChatChoiceMessage) -> Seq<char> {
    match m.content {
        Some(c) => c@,
        None => match m.reasoning_content {
            Some(r) => r@,
            None => Seq::empty(),
        },
    }
}

/// The blocks for a choice: its text, where there is some, then one
/// tool-use block for each tool call, in order.
pub open spec fn choice_blocks(c: ChatChoice) -> Seq<JsonModel> {
    (if answer_text(c.message).len() == 0 {
        Seq::empty()
    } else {
        seq![text_block(answer_text(c.message))]
    }) + Seq::new(
        c.message.tool_calls.len() as nat,
        |i: int| tool_use_block_for(c.message.tool_calls[i]),
    )
}

/// The finish reason of a choice, "stop" where it gives none.
pub open spec fn finish_reason_text(c: ChatChoice) -> Seq<char> {
    match c.finish_reason {
        Some(f) => f@,
        None => "stop"@,
    }
}

pub open spec fn choice_stop_reason(c: ChatChoice) -> Seq<char> {
    if c.message.tool_calls.len() > 0 {
        "tool_use"@
    } else if finish_reason_text(c) == "length"@ {
        "max_tokens"@
    } else {
        "end_turn"@
    }
}

/// The content blocks of the reply: those of the first choice, or one empty
/// text block where that gives none.
pub open spec fn reply_blocks(resp: ChatCompletionResponse) -> Seq<JsonModel> {
    let blocks = if resp.choices.len() == 0 {
        Seq::empty()
    } else {
        choice_blocks(resp.choices[0])
    };
    if blocks.len() == 0 {
        seq![text_block(Seq::empty())]
    } else {
        blocks
    }
}

pub open spec fn reply_stop_reason(resp: ChatCompletionResponse) -> Seq<char> {
    if resp.choices.len() == 0 {
        "end_turn"@
    } else {
        choice_stop_reason(resp.choices[0])
    }
}

/// The Anthropic reply to a chat response, for the requested model and a
/// message identifier made of `hex`.
pub open spec fn reply_for(resp: ChatCompletionResponse, model: Seq<char>, hex: Seq<char>) -> ReplyModel {
    ReplyModel {
        id: "msg_"@ + hex,
        msg_type: "message"@,
        role: "assistant"@,
        model: match resp.model {
            Some(m) => m@,
            None => model,
        },
        content: reply_blocks(resp),
        stop_reason: reply_stop_reason(resp),
        stop_sequence: None,
        input_tokens: match resp.usage {
            Some(u) => u.prompt_tokens,
            None => 0,
        },
        output_tokens: match resp.usage {
            Some(u) => u.completion_tokens,
            None => 0,
        },
    }
}

pub open spec fn is_lower_hex(c: char) -> bool {
    ('0' <= c && c <= '9') || ('a' <= c && c <= 'f')
}

// ── The translation ──────────────────────────────────────────────────────────

fn text_block_json(t: String) -> (r: Json)
    ensures
        r@ == text_block(t@),
{
    let ghost tv = t@;
    let type_key = "type".to_string();
    let text_tag = "text".to_string();
    let text_key = "text".to_string();
    let tag = Json::Str(text_tag);
    let body = Json::Str(t);
    assert(tag@ == JsonModel::Str("text"@));
    assert(body@ == JsonModel::Str(tv));
    let mut fields: Vec<(String, Json)> = Vec::new();
    fields.push((type_key, tag));
    fields.push((text_key, body));
    let r = Json::Object(fields);
    assert(r@->Object_0[0] == ("type"@, JsonModel::Str("text"@)));
    assert(r@->Object_0[1] == ("text"@, JsonModel::Str(tv)));
    assert(r@->Object_0 =~= text_block(tv)->Object_0);
    r
}

fn tool_use_block_json(id: String, name: String, input: Json) -> (r: Json)
    ensures
        r@ == tool_use_block(id@, name@, input@),
{
    let ghost (iv, nv, inv) = (id@, name@, input@);
    let type_key = "type".to_string();
    let tag = "tool_use".to_string();
    let id_key = "id".to_string();
    let name_key = "name".to_string();
    let input_key = "input".to_string();
    let tag = Json::Str(tag);
    let id = Json::Str(id);
    let name = Json::Str(name);
    assert(tag@ == JsonModel::Str("tool_use"@));
    assert(id@ == JsonModel::Str(iv));
    assert(name@ == JsonModel::Str(nv));
    let mut fields: Vec<(String, Json)> = Vec::new();
    fields.push((type_key, tag));
    fields.push((id_key, id));
    fields.push((name_key, name));
    fields.push((input_key, input));
    let r = Json::Object(fields);
    assert(r@->Object_0[0] == ("type"@, JsonModel::Str("tool_use"@)));
    assert(r@->Object_0[1] == ("id"@, JsonModel::Str(iv)));
    assert(r@->Object_0[2] == ("name"@, JsonModel::Str(nv)));
    assert(r@->Object_0[3] == ("input"@, inv));
    assert(r@->Object_0 =~= tool_use_block(iv, nv, inv)->Object_0);
    r
}

fn empty_object() -> (r: Json)
    ensures
        r@ == JsonModel::Object(Seq::empty()),
{
    let r = Json::Object(Vec::new());
    assert(r@->Object_0 =~= Seq::<(Seq<char>, JsonModel)>::empty());
    r
}

/// The document a tool call's arguments hold (see [`arguments_document`]).
fn arguments_json(arguments: &String) -> (r: Json)
    ensures
        r@ == arguments_document(arguments@),
{
    match parse_document(arguments.as_str()) {
        Ok(d) => d,
        Err(_) => empty_object(),
    }
}

pub open spec fn blocks_view(v: Seq<Json>) -> Seq<JsonModel> {
    Seq::new(v.len(), |i: int| v[i]@)
}

/// The content blocks and stop reason for the first choice.
fn choice_reply(c: &ChatChoice) -> (r: (Vec<Json>, String))
    ensures
        blocks_view(r.0@) == choice_blocks(*c),
        r.1@ == choice_stop_reason(*c),
{
    let mut blocks: Vec<Json> = Vec::new();
    let text = match &c.message.content {
        Some(t) => t.clone(),
        None => match &c.message.reasoning_content {
            Some(t) => t.clone(),
            None => String::new(),
        },
    };
    let ghost tv = text@;
    if !text.as_str().is_empty() {
        blocks.push(text_block_json(text));
    }
    let ghost head = blocks_view(blocks@);
    assert(head =~= if tv.len() == 0 {
        Seq::empty()
    } else {
        seq![text_block(tv)]
    });
    let calls = &c.message.tool_calls;
    let mut i: usize = 0;
    while i < calls.len()
        invariant
            0 <= i <= calls.len(),
            *calls == c.message.tool_calls,
            blocks_view(blocks@) == head + Seq::new(
                i as nat,
                |j: int| tool_use_block_for(c.message.tool_calls[j]),
            ),
        decreases calls.len() - i,
    {
        let tc = &calls[i];
        let input = arguments_json(&tc.function.arguments);
        let b = tool_use_block_json(tc.id.clone(), tc.function.name.clone(), input);
        let ghost before = blocks@;
        blocks.push(b);
        assert(blocks_view(blocks@) =~= blocks_view(before).push(b@));
        assert(blocks_view(blocks@) =~= head + Seq::new(
            (i + 1) as nat,
            |j: int| tool_use_block_for(c.message.tool_calls[j]),
        ));
        i = i + 1;
    }
    let stop_reason = if calls.len() > 0 {
        "tool_use".to_string()
    } else {
        let stop = "stop".to_string();
        let length = "length".to_string();
        let finish: &String = match &c.finish_reason {
            Some(f) => f,
            None => &stop,
        };
        if *finish == length {
            "max_tokens".to_string()
        } else {
            "end_turn".to_string()
        }
    };
    (blocks, stop_reason)
}

/// The Anthropic reply to a chat response, with the message identifier
/// `"msg_"` followed by `hex` (see [`reply_for`]).
pub fn translate_to_anthropic_with_id(resp: ChatCompletionResponse, model: &String, hex: &str) -> (r:
    AnthropicResponse)
    ensures
        r@ == reply_for(resp, model@, hex@),
{
    let (mut blocks, stop_reason) = if resp.choices.len() > 0 {
        choice_reply(&resp.choices[0])
    } else {
        let b: Vec<Json> = Vec::new();
        (b, "end_turn".to_string())
    };
    let ghost first = blocks_view(blocks@);
    if blocks.len() == 0 {
        blocks.push(text_block_json(String::new()));
    }
    assert(blocks_view(blocks@) =~= reply_blocks(resp));
    let mut id = "msg_".to_string();
    id.append(hex);
    let model_name = match &resp.model {
        Some(m) => m.clone(),
        None => model.clone(),
    };
    let (input_tokens, output_tokens) = match &resp.usage {
        Some(u) => (u.prompt_tokens, u.completion_tokens),
        None => (0, 0),
    };
    let r = AnthropicResponse {
        id,
        msg_type: "message".to_string(),
        role: "assistant".to_string(),
        model: model_name,
        content: blocks,
        stop_reason,
        stop_sequence: None,
        usage: AnthropicUsage { input_tokens, output_tokens },
    };
    assert(r@.content =~= reply_blocks(resp));
    r
}

/// `uuid::Uuid::new_v4` printed in its simple form. Claimed of every
/// outcome: 32 lowercase hexadecimal digits (the simple form writes each of
/// the 16 bytes as two lowercase hex digits). Which digits come is chance.
#[verifier::external_body]
fn random_simple_uuid() -> (s: String)
    ensures
        s@.len() == 32,
        forall|i: int| 0 <= i < 32 ==> is_lower_hex(#[trigger] s@[i]),
{
    uuid::Uuid::new_v4().simple().to_string()
}

/// The Anthropic reply to a chat response, under a fresh random message
/// identifier: `"msg_"` and 32 lowercase hex digits.
pub fn translate_to_anthropic(resp: ChatCompletionResponse, model: &String) -> (r: AnthropicResponse)
    ensures
        r@.id.len() == 36,
        forall|i: int| 4 <= i < 36 ==> is_lower_hex(#[trigger] r@.id[i]),
        r@ == reply_for(resp, model@, r@.id.skip(4)),
{
    let hex = random_simple_uuid();
    let r = translate_to_anthropic_with_id(resp, model, hex.as_str());
    proof {
        reveal_strlit("msg_");
    }
    assert(r@.id.skip(4) =~= hex@);
    r
}

} // verus!
