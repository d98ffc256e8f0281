//! What the translation does, stated over each operation's inputs: how the
//! texts of content blocks are joined, what a tool result carries, which
//! text an answer gives, which schema a tool takes and where the system
//! prompt goes.

use vstd::prelude::*;
use crate::json::{Json, JsonModel, compact_text, field, field_text, field_text_or_empty};
use crate::request::{
    ChatMessageModel, MessagesRequest, ToolCallModel, array_texts, block_call_piece, block_calls,
    block_text_piece, block_texts, chat_messages_for, gathered_message, has_other_block,
    is_tool_result, lemma_literals_differ, message_outputs, messages_outputs, opt_json,
    request_messages, text_of, tool_for, tool_result_message, tool_result_messages,
};
use crate::response::{ChatCompletionResponse, arguments_document, choice_blocks, reply_for};
use crate::text::join;

verus! {

/// A content item that carries a text: it has a string field `text`.
pub open spec fn carries_text(item: JsonModel) -> bool {
    field_text(item, "text"@) is Some
}

/// A content block of type `text` with a string field `text`.
pub open spec fn is_text_block(b: JsonModel) -> bool {
    field_text(b, "type"@) == Some("text"@) && field_text(b, "text"@) is Some
}

/// A content block that is no tool result.
pub open spec fn not_tool_result(b: JsonModel) -> bool {
    field_text(b, "type"@) != Some("tool_result"@)
}

/// The text an optional content holds, the empty text where it holds none.
pub open spec fn or_empty(o: Option<Seq<char>>) -> Seq<char> {
    match o {
        Some(c) => c,
        None => Seq::empty(),
    }
}

/// Joining one more part: the part alone after nothing, else after the
/// joined parts and the separator.
proof fn lemma_join_push(parts: Seq<Seq<char>>, t: Seq<char>, sep: Seq<char>)
    ensures
        join(parts.push(t), sep) == if parts.len() == 0 {
            t
        } else {
            join(parts, sep) + sep + t
        },
{
    let p = parts.push(t);
    assert(p.drop_last() =~= parts);
    assert(p.last() == t);
    if parts.len() == 0 {
        assert(p.len() == 1);
        assert(p[0] == t);
    }
}

proof fn lemma_array_texts_present(items: Seq<JsonModel>)
    ensures
        array_texts(items).len() > 0 <==> exists|k: int|
            0 <= k < items.len() && #[trigger] carries_text(items[k]),
    decreases items.len(),
{
    if items.len() > 0 {
        let d = items.drop_last();
        lemma_array_texts_present(d);
        if exists|k: int| 0 <= k < items.len() && #[trigger] carries_text(items[k]) {
            let k = choose|k: int| 0 <= k < items.len() && #[trigger] carries_text(items[k]);
            if k < items.len() - 1 {
                assert(d[k] == items[k]);
                assert(carries_text(d[k]));
            }
        }
        if exists|k: int| 0 <= k < d.len() && #[trigger] carries_text(d[k]) {
            let k = choose|k: int| 0 <= k < d.len() && #[trigger] carries_text(d[k]);
            assert(items[k] == d[k]);
            assert(carries_text(items[k]));
        }
        if carries_text(items.last()) {
            assert(carries_text(items[items.len() - 1]));
        }
    }
}

/// The plain text of content items: a string is itself; no items give the
/// empty text; an item with a text adds that text, after a newline where
/// some earlier item had a text; an item without a text adds nothing.
pub proof fn law_plain_text_joins_items(items: Seq<JsonModel>, item: JsonModel, s: Seq<char>)
    ensures
        text_of(JsonModel::Str(s)) == s,
        text_of(JsonModel::Array(Seq::empty())) == Seq::<char>::empty(),
        !carries_text(item) ==> text_of(JsonModel::Array(items.push(item))) == text_of(
            JsonModel::Array(items),
        ),
        carries_text(item) ==> text_of(JsonModel::Array(items.push(item))) == if exists|k: int|
            0 <= k < items.len() && #[trigger] carries_text(items[k]) {
            text_of(JsonModel::Array(items)) + "\n"@ + field_text(item, "text"@)->0
        } else {
            field_text(item, "text"@)->0
        },
{
    let p = items.push(item);
    assert(p.drop_last() =~= items);
    assert(p.last() == item);
    lemma_array_texts_present(items);
    if carries_text(item) {
        let t = field_text(item, "text"@)->0;
        assert(array_texts(p) =~= array_texts(items).push(t));
        lemma_join_push(array_texts(items), t, "\n"@);
    } else {
        assert(array_texts(p) =~= array_texts(items));
    }
}

proof fn lemma_block_texts_present(a: Seq<JsonModel>)
    ensures
        block_texts(a).len() > 0 <==> exists|k: int|
            0 <= k < a.len() && #[trigger] is_text_block(a[k]),
    decreases a.len(),
{
    lemma_literals_differ();
    if a.len() > 0 {
        let d = a.drop_last();
        lemma_block_texts_present(d);
        if exists|k: int| 0 <= k < a.len() && #[trigger] is_text_block(a[k]) {
            let k = choose|k: int| 0 <= k < a.len() && #[trigger] is_text_block(a[k]);
            if k < a.len() - 1 {
                assert(d[k] == a[k]);
                assert(is_text_block(d[k]));
            }
        }
        if exists|k: int| 0 <= k < d.len() && #[trigger] is_text_block(d[k]) {
            let k = choose|k: int| 0 <= k < d.len() && #[trigger] is_text_block(d[k]);
            assert(a[k] == d[k]);
            assert(is_text_block(a[k]));
        }
        if is_text_block(a.last()) {
            assert(is_text_block(a[a.len() - 1]));
        }
    }
}

/// Whether some block of `a` is no tool result.
pub open spec fn has_non_result(a: Seq<JsonModel>) -> bool {
    exists|k: int| 0 <= k < a.len() && #[trigger] not_tool_result(a[k])
}

/// Whether some block of `a` is a text block.
pub open spec fn has_text_block(a: Seq<JsonModel>) -> bool {
    exists|k: int| 0 <= k < a.len() && #[trigger] is_text_block(a[k])
}

/// The tool call a `tool_use` block asks for, written out: its `id` and
/// `name`, and its `input` (an empty object where it has none) as compact
/// JSON text.
pub open spec fn requested_call(b: JsonModel) -> ToolCallModel {
    ToolCallModel {
        id: field_text_or_empty(b, "id"@),
        call_type: "function"@,
        name: field_text_or_empty(b, "name"@),
        arguments: compact_text(
            match field(b, "input"@) {
                Some(x) => x,
                None => JsonModel::Object(Seq::empty()),
            },
        ),
    }
}

/// The `tool` message answering a tool call, written out.
pub open spec fn tool_message(id: Seq<char>, content: Seq<char>) -> ChatMessageModel {
    ChatMessageModel { role: "tool"@, content: Some(content), tool_call_id: Some(id), tool_calls: None }
}

proof fn lemma_push_block(a: Seq<JsonModel>, b: JsonModel)
    ensures
        block_texts(a.push(b)) == block_texts(a) + block_text_piece(b),
        block_calls(a.push(b)) == block_calls(a) + block_call_piece(b),
        tool_result_messages(a.push(b)) == tool_result_messages(a) + if is_tool_result(b) {
            seq![tool_result_message(b)]
        } else {
            Seq::<ChatMessageModel>::empty()
        },
        has_other_block(a.push(b)) == (has_other_block(a) || !is_tool_result(b)),
{
    assert(a.push(b).drop_last() =~= a);
    assert(a.push(b).last() == b);
}

proof fn lemma_non_result_present(a: Seq<JsonModel>)
    ensures
        has_other_block(a) == has_non_result(a),
        has_text_block(a) ==> has_non_result(a),
    decreases a.len(),
{
    lemma_literals_differ();
    if has_text_block(a) {
        let k = choose|k: int| 0 <= k < a.len() && #[trigger] is_text_block(a[k]);
        assert(not_tool_result(a[k]));
    }
    if a.len() > 0 {
        let d = a.drop_last();
        lemma_non_result_present(d);
        if has_non_result(a) {
            let k = choose|k: int| 0 <= k < a.len() && #[trigger] not_tool_result(a[k]);
            if k < a.len() - 1 {
                assert(d[k] == a[k]);
                assert(not_tool_result(d[k]));
            }
        }
        if has_non_result(d) {
            let k = choose|k: int| 0 <= k < d.len() && #[trigger] not_tool_result(d[k]);
            assert(a[k] == d[k]);
            assert(not_tool_result(a[k]));
        }
        if not_tool_result(a.last()) {
            assert(not_tool_result(a[a.len() - 1]));
        }
    }
}

/// The shape of a message's chat messages for blocks `a` after one more
/// block `b`.
proof fn lemma_push_outputs(role: Seq<char>, a: Seq<JsonModel>, b: JsonModel)
    ensures
        ({
            let p = a.push(b);
            &&& message_outputs(role, JsonModel::Array(a)) == (if has_non_result(a) {
                seq![gathered_message(role, a)]
            } else {
                Seq::<ChatMessageModel>::empty()
            }) + tool_result_messages(a)
            &&& message_outputs(role, JsonModel::Array(p)) == (if has_non_result(p) {
                seq![gathered_message(role, p)]
            } else {
                Seq::<ChatMessageModel>::empty()
            }) + tool_result_messages(p)
        }),
{
    lemma_non_result_present(a);
    lemma_non_result_present(a.push(b));
}

/// The texts of a message's text blocks go out joined by newlines, in the
/// one message that gathers the message's blocks and comes before its tool
/// results: one more text block leaves the tool results and calls as they
/// were, and makes the gathered text the text so far, a newline and the
/// block's text, or the block's text alone where no earlier block was a
/// text block (no text at all where that is empty).
pub proof fn law_text_blocks_join(role: Seq<char>, a: Seq<JsonModel>, b: JsonModel)
    requires
        is_text_block(b),
    ensures
        ({
            let t = field_text(b, "text"@)->0;
            let out = message_outputs(role, JsonModel::Array(a.push(b)));
            let before = message_outputs(role, JsonModel::Array(a));
            &&& out.len() >= 1
            &&& out[0].role == role
            &&& out[0].tool_call_id is None
            &&& has_non_result(a) ==> {
                &&& before.len() >= 1
                &&& out[0].tool_calls == before[0].tool_calls
                &&& out.skip(1) == before.skip(1)
            }
            &&& !has_non_result(a) ==> out[0].tool_calls is None && out.skip(1) == before
            &&& has_text_block(a) ==> out[0].content == Some(
                or_empty(before[0].content) + "\n"@ + t,
            )
            &&& !has_text_block(a) ==> out[0].content == if t.len() == 0 {
                None
            } else {
                Some(t)
            }
        }),
{
    lemma_literals_differ();
    reveal_strlit("\n");
    let t = field_text(b, "text"@)->0;
    let p = a.push(b);
    lemma_push_block(a, b);
    lemma_push_outputs(role, a, b);
    lemma_non_result_present(a);
    lemma_non_result_present(p);
    assert(not_tool_result(p[a.len() as int]));
    assert(has_non_result(p));
    lemma_block_texts_present(a);
    assert(block_texts(p) =~= block_texts(a).push(t));
    assert(block_calls(p) =~= block_calls(a));
    assert(tool_result_messages(p) =~= tool_result_messages(a));
    lemma_join_push(block_texts(a), t, "\n"@);
    let out = message_outputs(role, JsonModel::Array(p));
    let before = message_outputs(role, JsonModel::Array(a));
    assert(out.skip(1) =~= tool_result_messages(a));
    if has_non_result(a) {
        assert(before.skip(1) =~= tool_result_messages(a));
    } else {
        assert(before =~= tool_result_messages(a));
        assert(block_calls(a).len() == 0) by {
            lemma_no_calls_without_blocks(a);
        }
    }
}

proof fn lemma_no_calls_without_blocks(a: Seq<JsonModel>)
    requires
        !has_non_result(a),
    ensures
        block_calls(a).len() == 0,
        block_texts(a).len() == 0,
    decreases a.len(),
{
    if a.len() > 0 {
        let d = a.drop_last();
        assert(!has_non_result(d)) by {
            if has_non_result(d) {
                let k = choose|k: int| 0 <= k < d.len() && #[trigger] not_tool_result(d[k]);
                assert(a[k] == d[k]);
                assert(not_tool_result(a[k]));
            }
        }
        lemma_no_calls_without_blocks(d);
        assert(!not_tool_result(a[a.len() - 1]));
    }
}

/// A `tool_use` block adds its call, written out as [`requested_call`],
/// after the calls gathered so far, and leaves the gathered text and the
/// tool results as they were.
pub proof fn law_tool_use_adds_call(role: Seq<char>, a: Seq<JsonModel>, b: JsonModel)
    requires
        field_text(b, "type"@) == Some("tool_use"@),
    ensures
        ({
            let out = message_outputs(role, JsonModel::Array(a.push(b)));
            let before = message_outputs(role, JsonModel::Array(a));
            &&& out.len() >= 1
            &&& out[0].role == role
            &&& out[0].tool_call_id is None
            &&& has_non_result(a) ==> {
                &&& before.len() >= 1
                &&& out[0].content == before[0].content
                &&& out[0].tool_calls == Some(
                    match before[0].tool_calls {
                        Some(cs) => cs,
                        None => Seq::empty(),
                    }.push(requested_call(b)),
                )
                &&& out.skip(1) == before.skip(1)
            }
            &&& !has_non_result(a) ==> {
                &&& out[0].content is None
                &&& out[0].tool_calls == Some(seq![requested_call(b)])
                &&& out.skip(1) == before
            }
        }),
{
    lemma_literals_differ();
    let p = a.push(b);
    lemma_push_block(a, b);
    lemma_push_outputs(role, a, b);
    lemma_non_result_present(a);
    assert(not_tool_result(p[a.len() as int]));
    assert(has_non_result(p));
    assert(block_texts(p) =~= block_texts(a));
    assert(block_call_piece(b) == seq![requested_call(b)]);
    assert(block_calls(p) =~= block_calls(a).push(requested_call(b)));
    assert(tool_result_messages(p) =~= tool_result_messages(a));
    let out = message_outputs(role, JsonModel::Array(p));
    let before = message_outputs(role, JsonModel::Array(a));
    assert(out.skip(1) =~= tool_result_messages(a));
    if has_non_result(a) {
        assert(before.skip(1) =~= tool_result_messages(a));
    } else {
        assert(before =~= tool_result_messages(a));
        lemma_no_calls_without_blocks(a);
        assert(block_calls(p) =~= seq![requested_call(b)]);
    }
}

/// A block that is no text block, tool use or tool result adds nothing but
/// the gathered message itself, where there was none.
pub proof fn law_other_block_adds_nothing(role: Seq<char>, a: Seq<JsonModel>, b: JsonModel)
    requires
        !is_text_block(b),
        field_text(b, "type"@) != Some("tool_use"@),
        field_text(b, "type"@) != Some("tool_result"@),
    ensures
        ({
            let out = message_outputs(role, JsonModel::Array(a.push(b)));
            let before = message_outputs(role, JsonModel::Array(a));
            &&& has_non_result(a) ==> out == before
            &&& !has_non_result(a) ==> out == seq![
                ChatMessageModel { role, content: None, tool_call_id: None, tool_calls: None },
            ] + before
        }),
{
    lemma_literals_differ();
    let p = a.push(b);
    lemma_push_block(a, b);
    lemma_push_outputs(role, a, b);
    lemma_non_result_present(a);
    assert(not_tool_result(p[a.len() as int]));
    assert(has_non_result(p));
    assert(block_texts(p) =~= block_texts(a));
    assert(block_calls(p) =~= block_calls(a));
    assert(tool_result_messages(p) =~= tool_result_messages(a));
    if !has_non_result(a) {
        lemma_no_calls_without_blocks(a);
    }
}

/// A tool result adds its `tool` message after all the messages before it,
/// whatever they are: it carries the identifier of the call it answers and
/// the text of its `content` (a string as it is, other content as its
/// plain text, nothing where there is no content).
pub proof fn law_tool_result_appends(role: Seq<char>, a: Seq<JsonModel>, b: JsonModel)
    requires
        field_text(b, "type"@) == Some("tool_result"@),
    ensures
        message_outputs(role, JsonModel::Array(a.push(b))) == message_outputs(
            role,
            JsonModel::Array(a),
        ).push(
            tool_message(
                field_text_or_empty(b, "tool_use_id"@),
                match field(b, "content"@) {
                    Some(JsonModel::Str(s)) => s,
                    Some(v) => text_of(v),
                    None => Seq::empty(),
                },
            ),
        ),
{
    lemma_literals_differ();
    let p = a.push(b);
    lemma_push_block(a, b);
    lemma_push_outputs(role, a, b);
    lemma_non_result_present(a);
    lemma_non_result_present(p);
    assert(block_texts(p) =~= block_texts(a));
    assert(block_calls(p) =~= block_calls(a));
    assert(has_non_result(p) == has_non_result(a));
    assert(message_outputs(role, JsonModel::Array(p)) =~= message_outputs(
        role,
        JsonModel::Array(a),
    ).push(tool_result_message(b)));
}

/// A content block that is a tool result.
pub open spec fn is_result_block(b: JsonModel) -> bool {
    field_text(b, "type"@) == Some("tool_result"@)
}

proof fn lemma_only_tool_results(a: Seq<JsonModel>)
    requires
        forall|k: int| 0 <= k < a.len() ==> #[trigger] is_result_block(a[k]),
    ensures
        !has_other_block(a),
        tool_result_messages(a) == Seq::new(
            a.len(),
            |k: int| crate::request::tool_result_message(a[k]),
        ),
    decreases a.len(),
{
    if a.len() > 0 {
        let d = a.drop_last();
        assert forall|k: int| 0 <= k < d.len() implies #[trigger] is_result_block(d[k]) by {
            assert(d[k] == a[k]);
        }
        lemma_only_tool_results(d);
        assert(is_result_block(a[a.len() - 1]));
        assert(tool_result_messages(a) =~= Seq::new(
            a.len(),
            |k: int| crate::request::tool_result_message(a[k]),
        ));
    }
}

/// Tool results go out one `tool` message each, in order, carrying the
/// identifier of the call they answer and the text of their `content`: a
/// string as it is, other content as its plain text (see
/// [`law_plain_text_joins_items`]), nothing where there is no content.
pub proof fn law_tool_results_carry_content(role: Seq<char>, a: Seq<JsonModel>)
    requires
        forall|k: int| 0 <= k < a.len() ==> #[trigger] is_result_block(a[k]),
    ensures
        ({
            let out = message_outputs(role, JsonModel::Array(a));
            &&& out.len() == a.len()
            &&& forall|k: int|
                0 <= k < a.len() ==> {
                    &&& (#[trigger] out[k]).role == "tool"@
                    &&& out[k].tool_call_id == Some(
                        crate::json::field_text_or_empty(a[k], "tool_use_id"@),
                    )
                    &&& out[k].tool_calls is None
                    &&& out[k].content == Some(
                        match field(a[k], "content"@) {
                            Some(JsonModel::Str(s)) => s,
                            Some(v) => text_of(v),
                            None => Seq::empty(),
                        },
                    )
                }
        }),
{
    lemma_only_tool_results(a);
    let out = message_outputs(role, JsonModel::Array(a));
    assert(out =~= Seq::<ChatMessageModel>::empty() + tool_result_messages(a));
}

/// The Anthropic text block with text `t`, written out.
pub open spec fn text_block_of(t: Seq<char>) -> JsonModel {
    JsonModel::Object(seq![("type"@, JsonModel::Str("text"@)), ("text"@, JsonModel::Str(t))])
}

/// The answer's content wins over its reasoning: where the first choice has
/// content `c`, the reply's first block is the text block of `c` whenever
/// `c` is not empty, and, without tool calls, the reply is that one text
/// block, whatever the reasoning holds.
pub proof fn law_content_wins_over_reasoning(
    resp: ChatCompletionResponse,
    model: Seq<char>,
    hex: Seq<char>,
    c: String,
)
    requires
        resp.choices.len() > 0,
        resp.choices[0].message.content == Some(c),
    ensures
        c@.len() > 0 ==> reply_for(resp, model, hex).content[0] == text_block_of(c@),
        resp.choices[0].message.tool_calls.len() == 0 ==> reply_for(resp, model, hex).content
            == seq![text_block_of(c@)],
{
    let blocks = choice_blocks(resp.choices[0]);
    if resp.choices[0].message.tool_calls.len() == 0 {
        if c@.len() == 0 {
            assert(blocks =~= Seq::<JsonModel>::empty());
            assert(c@ =~= Seq::<char>::empty());
        } else {
            assert(blocks =~= seq![text_block_of(c@)]);
        }
    }
}

/// The reasoning stands in for the answer only where there is no content:
/// without content, a non-empty reasoning `r` gives the reply's first block,
/// the text block of `r`.
pub proof fn law_reasoning_when_no_content(
    resp: ChatCompletionResponse,
    model: Seq<char>,
    hex: Seq<char>,
    r: String,
)
    requires
        resp.choices.len() > 0,
        resp.choices[0].message.content is None,
        resp.choices[0].message.reasoning_content == Some(r),
        r@.len() > 0,
    ensures
        reply_for(resp, model, hex).content[0] == text_block_of(r@),
{
}

/// A tool definition becomes a function tool of the same name and
/// description whose parameters are the definition's `input_schema`, as it
/// stands, or an object schema without properties where it has none.
pub proof fn law_tool_keeps_schema(t: JsonModel)
    ensures
        tool_for(t).tool_type == "function"@,
        tool_for(t).name == crate::json::field_text_or_empty(t, "name"@),
        tool_for(t).description == crate::json::field_text_or_empty(t, "description"@),
        match field(t, "input_schema"@) {
            Some(p) => tool_for(t).parameters == p,
            None => tool_for(t).parameters == JsonModel::Object(
                seq![
                    ("type"@, JsonModel::Str("object"@)),
                    ("properties"@, JsonModel::Object(Seq::empty())),
                ],
            ),
        },
{
}

/// The system prompt comes first: where its plain text is not empty, the
/// chat messages are the system message with that text followed by the
/// messages' own, whatever tools the request offers.
pub proof fn law_system_prompt_first(req: MessagesRequest, s: Json)
    requires
        req.system == Some(s),
        text_of(s@).len() > 0,
    ensures
        chat_messages_for(req).len() >= 1,
        chat_messages_for(req)[0] == (ChatMessageModel {
            role: "system"@,
            content: Some(text_of(s@)),
            tool_call_id: None,
            tool_calls: None,
        }),
        chat_messages_for(req).skip(1) == messages_outputs(request_messages(req)),
{
    assert(chat_messages_for(req).skip(1) =~= messages_outputs(request_messages(req)));
}

/// Without a system prompt, or with one without text, the chat messages are
/// the messages' own.
pub proof fn law_no_system_prompt(req: MessagesRequest)
    requires
        match req.system {
            Some(s) => text_of(s@).len() == 0,
            None => true,
        },
    ensures
        chat_messages_for(req) == messages_outputs(request_messages(req)),
{
    assert(chat_messages_for(req) =~= messages_outputs(request_messages(req)));
}

/// The chat messages depend on the system prompt and the messages alone:
/// two requests that agree on those get the same chat messages, whatever
/// their model, token limit and tools.
pub proof fn law_messages_ignore_tools(r1: MessagesRequest, r2: MessagesRequest)
    requires
        opt_json(r1.system) == opt_json(r2.system),
        request_messages(r1) == request_messages(r2),
    ensures
        chat_messages_for(r1) == chat_messages_for(r2),
{
}

/// The messages go out in order: one more message adds its own chat
/// messages after those of the messages before it.
pub proof fn law_messages_in_order(ms: Seq<(Seq<char>, JsonModel)>, m: (Seq<char>, JsonModel))
    ensures
        messages_outputs(ms.push(m)) == messages_outputs(ms) + message_outputs(m.0, m.1),
        messages_outputs(Seq::empty()) == Seq::<ChatMessageModel>::empty(),
{
    assert(ms.push(m).drop_last() =~= ms);
}

/// The reply's frame: identifier `"msg_"` and `hex`, an assistant message,
/// the upstream's model where it names one (else the requested one), its
/// token counts (none counted where it gives none), no stop sequence, and
/// the stop reason: tool use where the first choice calls tools, else
/// "max_tokens" where it stopped for length, else "end_turn".
pub proof fn law_reply_frame(resp: ChatCompletionResponse, model: Seq<char>, hex: Seq<char>)
    ensures
        ({
            let r = reply_for(resp, model, hex);
            &&& r.id == "msg_"@ + hex
            &&& r.msg_type == "message"@
            &&& r.role == "assistant"@
            &&& r.model == match resp.model {
                Some(m) => m@,
                None => model,
            }
            &&& r.input_tokens == match resp.usage {
                Some(u) => u.prompt_tokens,
                None => 0,
            }
            &&& r.output_tokens == match resp.usage {
                Some(u) => u.completion_tokens,
                None => 0,
            }
            &&& r.stop_sequence is None
            &&& r.stop_reason == if resp.choices.len() == 0 {
                "end_turn"@
            } else if resp.choices[0].message.tool_calls.len() > 0 {
                "tool_use"@
            } else if match resp.choices[0].finish_reason {
                Some(f) => f@ == "length"@,
                None => false,
            } {
                "max_tokens"@
            } else {
                "end_turn"@
            }
        }),
{
    reveal_strlit("stop");
    reveal_strlit("length");
    assert("stop"@.len() != "length"@.len());
}

/// The reply ends with one `tool_use` block for each tool call of the first
/// choice, in order, with the call's identifier and name and the document
/// its arguments hold.
pub proof fn law_reply_tool_blocks(resp: ChatCompletionResponse, model: Seq<char>, hex: Seq<char>)
    requires
        resp.choices.len() > 0,
    ensures
        ({
            let calls = resp.choices[0].message.tool_calls;
            let content = reply_for(resp, model, hex).content;
            &&& content.len() >= calls.len()
            &&& forall|i: int|
                0 <= i < calls.len() ==> #[trigger] content[content.len() - calls.len() + i]
                    == JsonModel::Object(
                    seq![
                        ("type"@, JsonModel::Str("tool_use"@)),
                        ("id"@, JsonModel::Str(calls[i].id@)),
                        ("name"@, JsonModel::Str(calls[i].function.name@)),
                        ("input"@, arguments_document(calls[i].function.arguments@)),
                    ],
                )
        }),
{
    let calls = resp.choices[0].message.tool_calls;
    let blocks = choice_blocks(resp.choices[0]);
    if calls.len() > 0 {
        assert(blocks.len() >= calls.len());
        assert(reply_for(resp, model, hex).content == blocks);
    }
}

} // verus!
