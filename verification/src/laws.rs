use vstd::prelude::*;
use crate::auth::{chosen_key, standalone_key};
use crate::cli::ids_of;
use crate::json::{JsonModel, compact_text, field, field_text, lemma_lookup_at, parsed_document};
use crate::text::join;
use crate::request::{
    ChatMessageModel, ToolCallModel, block_call_piece, block_calls, block_text_piece, block_texts,
    block_type, gathered_message, has_other_block, is_tool_result, lemma_literals_differ,
    message_outputs, tool_call_of, tool_result_message, tool_result_messages,
};
use crate::response::{
    ChatChoice, ChatCompletionResponse, ResponseToolCall, answer_text, arguments_document,
    choice_blocks, reply_blocks, reply_stop_reason, text_block, tool_use_block_for,
};

verus! {

/// The OpenAI tool call that a response's tool call becomes once it has
/// gone out as an Anthropic `tool_use` block and come back in the next
/// request.
pub open spec fn returned_call(tc: ResponseToolCall) -> ToolCallModel {
    ToolCallModel {
        id: tc.id@,
        call_type: "function"@,
        name: tc.function.name@,
        arguments: compact_text(arguments_document(tc.function.arguments@)),
    }
}

proof fn lemma_block_calls_concat(a: Seq<JsonModel>, b: Seq<JsonModel>)
    ensures
        block_calls(a + b) == block_calls(a) + block_calls(b),
        block_texts(a + b) == block_texts(a) + block_texts(b),
        tool_result_messages(a + b) == tool_result_messages(a) + tool_result_messages(b),
        has_other_block(a + b) == (has_other_block(a) || has_other_block(b)),
    decreases b.len(),
{
    if b.len() == 0 {
        assert(a + b =~= a);
        assert(block_calls(a) + block_calls(b) =~= block_calls(a));
        assert(block_texts(a) + block_texts(b) =~= block_texts(a));
        assert(tool_result_messages(a) + tool_result_messages(b) =~= tool_result_messages(a));
    } else {
        lemma_block_calls_concat(a, b.drop_last());
        assert((a + b).drop_last() =~= a + b.drop_last());
        assert((a + b).last() == b.last());
        assert(block_calls(a + b) =~= block_calls(a) + block_calls(b));
        assert(block_texts(a + b) =~= block_texts(a) + block_texts(b));
        assert(tool_result_messages(a + b) =~= tool_result_messages(a) + tool_result_messages(b));
    }
}

proof fn lemma_single_block(b: JsonModel)
    ensures
        block_calls(seq![b]) == block_call_piece(b),
        block_texts(seq![b]) == block_text_piece(b),
        tool_result_messages(seq![b]) == if is_tool_result(b) {
            seq![tool_result_message(b)]
        } else {
            Seq::<ChatMessageModel>::empty()
        },
        has_other_block(seq![b]) == !is_tool_result(b),
{
    let a = seq![b];
    assert(a.drop_last() =~= Seq::<JsonModel>::empty());
    assert(a.last() == b);
    assert(block_calls(a.drop_last()) == Seq::<ToolCallModel>::empty());
    assert(block_texts(a.drop_last()) == Seq::<Seq<char>>::empty());
    assert(tool_result_messages(a.drop_last()) == Seq::<ChatMessageModel>::empty());
    assert(!has_other_block(a.drop_last()));
    assert(block_calls(a) =~= block_call_piece(b));
    assert(block_texts(a) =~= block_text_piece(b));
    assert(tool_result_messages(a) =~= if is_tool_result(b) {
        seq![tool_result_message(b)]
    } else {
        Seq::<ChatMessageModel>::empty()
    });
}

proof fn lemma_text_block(t: Seq<char>)
    ensures
        block_type(text_block(t)) == Some("text"@),
        !is_tool_result(text_block(t)),
        block_call_piece(text_block(t)) == Seq::<ToolCallModel>::empty(),
        block_text_piece(text_block(t)) == seq![t],
{
    lemma_literals_differ();
    let fields = text_block(t)->Object_0;
    lemma_lookup_at(fields, "type"@, 0);
    lemma_lookup_at(fields, "text"@, 1);
}

proof fn lemma_tool_use_block(tc: ResponseToolCall)
    ensures
        block_type(tool_use_block_for(tc)) == Some("tool_use"@),
        !is_tool_result(tool_use_block_for(tc)),
        block_call_piece(tool_use_block_for(tc)) == seq![returned_call(tc)],
        block_text_piece(tool_use_block_for(tc)) == Seq::<Seq<char>>::empty(),
{
    lemma_literals_differ();
    let b = tool_use_block_for(tc);
    let fields = b->Object_0;
    lemma_lookup_at(fields, "type"@, 0);
    lemma_lookup_at(fields, "id"@, 1);
    lemma_lookup_at(fields, "name"@, 2);
    lemma_lookup_at(fields, "input"@, 3);
    assert(field(b, "id"@) == Some(JsonModel::Str(tc.id@)));
    assert(field(b, "name"@) == Some(JsonModel::Str(tc.function.name@)));
    assert(field(b, "input"@) == Some(arguments_document(tc.function.arguments@)));
    assert(tool_call_of(b) == returned_call(tc));
}

proof fn lemma_tool_use_blocks(calls: Seq<ResponseToolCall>, n: int)
    requires
        0 <= n <= calls.len(),
    ensures
        ({
            let blocks = Seq::new(n as nat, |i: int| tool_use_block_for(calls[i]));
            &&& block_calls(blocks) == Seq::new(n as nat, |i: int| returned_call(calls[i]))
            &&& block_texts(blocks) == Seq::<Seq<char>>::empty()
            &&& tool_result_messages(blocks) == Seq::<ChatMessageModel>::empty()
            &&& (n > 0 ==> has_other_block(blocks))
        }),
    decreases n,
{
    let blocks = Seq::new(n as nat, |i: int| tool_use_block_for(calls[i]));
    if n == 0 {
    } else {
        lemma_tool_use_blocks(calls, n - 1);
        let prev = Seq::new((n - 1) as nat, |i: int| tool_use_block_for(calls[i]));
        assert(blocks.drop_last() =~= prev);
        lemma_tool_use_block(calls[n - 1]);
        assert(block_calls(blocks) =~= Seq::new(n as nat, |i: int| returned_call(calls[i])));
        assert(block_texts(blocks) =~= Seq::<Seq<char>>::empty());
        assert(tool_result_messages(blocks) =~= Seq::<ChatMessageModel>::empty());
    }
}

/// An answer survives the round trip through the client: the blocks the
/// proxy answers with, sent back as the content of a message of the next
/// request, become one message again, with the answer's text and the same
/// tool calls, in the same order, with the same identifiers and names, and
/// with the arguments the upstream gave as a document; no tool result comes
/// of them.
pub proof fn law_answer_round_trip(c: ChatChoice, role: Seq<char>)
    ensures
        block_calls(choice_blocks(c)) == Seq::new(
            c.message.tool_calls.len() as nat,
            |i: int| returned_call(c.message.tool_calls[i]),
        ),
        tool_result_messages(choice_blocks(c)) == Seq::<ChatMessageModel>::empty(),
        choice_blocks(c).len() > 0 ==> message_outputs(role, JsonModel::Array(choice_blocks(c)))
            == seq![
            ChatMessageModel {
                role,
                content: if answer_text(c.message).len() == 0 {
                    None
                } else {
                    Some(answer_text(c.message))
                },
                tool_call_id: None,
                tool_calls: if c.message.tool_calls.len() == 0 {
                    None
                } else {
                    Some(
                        Seq::new(
                            c.message.tool_calls.len() as nat,
                            |i: int| returned_call(c.message.tool_calls[i]),
                        ),
                    )
                },
            },
        ],
{
    let calls = c.message.tool_calls@;
    let n = calls.len() as int;
    let tools = Seq::new(n as nat, |i: int| tool_use_block_for(calls[i]));
    let text = answer_text(c.message);
    let head: Seq<JsonModel> = if text.len() == 0 {
        Seq::empty()
    } else {
        seq![text_block(text)]
    };
    assert(choice_blocks(c) =~= head + tools);
    lemma_block_calls_concat(head, tools);
    lemma_tool_use_blocks(calls, n);
    if text.len() > 0 {
        lemma_text_block(text);
        lemma_single_block(text_block(text));
    }
    assert(block_calls(choice_blocks(c)) =~= Seq::new(
        c.message.tool_calls.len() as nat,
        |i: int| returned_call(c.message.tool_calls[i]),
    ));
    assert(tool_result_messages(choice_blocks(c)) =~= Seq::<ChatMessageModel>::empty());
    let blocks = choice_blocks(c);
    if text.len() > 0 {
        assert(block_texts(blocks) =~= seq![text]);
        assert(join(block_texts(blocks), "\n"@) == text);
    } else {
        assert(block_texts(blocks) =~= Seq::<Seq<char>>::empty());
    }
    if blocks.len() > 0 {
        assert(has_other_block(blocks));
        assert(message_outputs(role, JsonModel::Array(blocks)) =~= seq![
            gathered_message(role, blocks),
        ]);
    }
}

/// Every Anthropic reply has at least one content block.
pub proof fn law_reply_never_empty(resp: ChatCompletionResponse)
    ensures
        reply_blocks(resp).len() >= 1,
{
}

/// The reply stops for tool use exactly when the upstream's first choice
/// asks for tools.
pub proof fn law_tool_use_stop(resp: ChatCompletionResponse)
    ensures
        reply_stop_reason(resp) == "tool_use"@ <==> (resp.choices.len() > 0
            && resp.choices[0].message.tool_calls.len() > 0),
{
    lemma_literals_differ();
}

/// A message whose content is plain text goes out as one message with the
/// same role and text.
pub proof fn law_plain_text_passes(role: Seq<char>, s: Seq<char>)
    ensures
        message_outputs(role, JsonModel::Str(s)) == seq![
            ChatMessageModel { role, content: Some(s), tool_call_id: None, tool_calls: None },
        ],
{
}

/// A tool result is sent as one `tool` message that carries the identifier
/// of the tool call it answers and its text.
pub proof fn law_tool_result_answers_call(id: Seq<char>, t: Seq<char>)
    ensures
        ({
            let b = JsonModel::Object(
                seq![
                    ("type"@, JsonModel::Str("tool_result"@)),
                    ("tool_use_id"@, JsonModel::Str(id)),
                    ("content"@, JsonModel::Str(t)),
                ],
            );
            &&& is_tool_result(b)
            &&& message_outputs("user"@, JsonModel::Array(seq![b])) == seq![
                tool_result_message(b),
            ]
            &&& tool_result_message(b) == ChatMessageModel {
                role: "tool"@,
                content: Some(t),
                tool_call_id: Some(id),
                tool_calls: None,
            }
        }),
{
    lemma_literals_differ();
    let b = JsonModel::Object(
        seq![
            ("type"@, JsonModel::Str("tool_result"@)),
            ("tool_use_id"@, JsonModel::Str(id)),
            ("content"@, JsonModel::Str(t)),
        ],
    );
    let fields = b->Object_0;
    lemma_lookup_at(fields, "type"@, 0);
    lemma_lookup_at(fields, "tool_use_id"@, 1);
    lemma_lookup_at(fields, "content"@, 2);
    let a = seq![b];
    lemma_single_block(b);
    assert(message_outputs("user"@, JsonModel::Array(a)) =~= seq![tool_result_message(b)]);
}

/// A key set in the environment, and not empty, wins over the auth file.
pub proof fn law_environment_key_wins(k: Seq<char>, file: Option<Seq<char>>)
    requires
        k.len() > 0,
    ensures
        chosen_key(Some(k), file) == Some(k),
{
}

/// Without a key in the environment (unset or empty), the command line
/// takes the `api_key` string of the auth file's document, and has none
/// where the file is missing, no JSON or holds no such string.
pub proof fn law_file_key_fallback(env: Option<Seq<char>>, file: Option<Seq<char>>)
    requires
        match env {
            Some(k) => k.len() == 0,
            None => true,
        },
    ensures
        chosen_key(env, file) == match file {
            Some(c) => match parsed_document(c) {
                Some(d) => field_text(d, "api_key"@),
                None => None,
            },
            None => None,
        },
{
}

/// The standalone server takes the environment's key whenever it is set,
/// even empty; without it, the auth file's key, and the empty key where
/// that gives none.
pub proof fn law_standalone_key(env: Option<Seq<char>>, file: Option<Seq<char>>)
    ensures
        env is Some ==> standalone_key(env, file) == env->0,
        env is None ==> standalone_key(env, file) == match chosen_key(None, file) {
            Some(k) => k,
            None => Seq::empty(),
        },
{
}

/// The model list names the string `id`s of the `data` items in order: one
/// more item adds its `id` at the end where it is a string, and nothing
/// otherwise.
pub proof fn law_model_ids_in_order(models: Seq<JsonModel>, m: JsonModel)
    ensures
        ids_of(Seq::empty()) == Seq::<Seq<char>>::empty(),
        ids_of(models.push(m)) == match field_text(m, "id"@) {
            Some(id) => ids_of(models).push(id),
            None => ids_of(models),
        },
{
    assert(models.push(m).drop_last() =~= models);
    assert(models.push(m).last() == m);
    match field_text(m, "id"@) {
        Some(id) => {
            assert(ids_of(models) + seq![id] =~= ids_of(models).push(id));
        },
        None => {
            assert(ids_of(models) + Seq::<Seq<char>>::empty() =~= ids_of(models));
        },
    }
}

} // verus!
