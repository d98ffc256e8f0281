use vstd::prelude::*;
use crate::json::{Json, JsonModel};
use crate::response::{
    AnthropicResponse, ChatCompletionResponse, ReplyModel, is_lower_hex, reply_for,
    translate_to_anthropic, translate_to_anthropic_with_id,
};
use crate::text::{decimal, decimal_string};

verus! {

/// The body of a reply of the proxy.
pub enum ReplyBody {
    /// A JSON document.
    Document(Json),
    /// Text handed on as it came.
    Text(String),
    /// An Anthropic Messages reply.
    Message(AnthropicResponse),
}

/// A reply of the proxy: an HTTP status and a body.
pub struct ProxyReply {
    pub status: u16,
    pub body: ReplyBody,
}

pub enum BodyModel {
    Document(JsonModel),
    Text(Seq<char>),
    Message(ReplyModel),
}

pub struct ReplyView {
    pub status: u16,
    pub body: BodyModel,
}

impl View for ProxyReply {
    type V = ReplyView;

    open spec fn view(&self) -> ReplyView {
        ReplyView {
            status: self.status,
            body: match self.body {
                ReplyBody::Document(d) => BodyModel::Document(d@),
                ReplyBody::Text(t) => BodyModel::Text(t@),
                ReplyBody::Message(m) => BodyModel::Message(m@),
            },
        }
    }
}

/// `{"error": msg}`.
pub open spec fn error_document(msg: Seq<char>) -> JsonModel {
    JsonModel::Object(seq![("error"@, JsonModel::Str(msg))])
}

/// `{"error": msg, "details": details}`.
pub open spec fn error_details_document(msg: Seq<char>, details: Seq<char>) -> JsonModel {
    JsonModel::Object(
        seq![("error"@, JsonModel::Str(msg)), ("details"@, JsonModel::Str(details))],
    )
}

/// `{"status": "ok", "service": "regolo-messages-proxy"}`.
pub open spec fn health_model() -> JsonModel {
    JsonModel::Object(
        seq![
            ("status"@, JsonModel::Str("ok"@)),
            ("service"@, JsonModel::Str("regolo-messages-proxy"@)),
        ],
    )
}

pub open spec fn document_reply(status: u16, d: JsonModel) -> ReplyView {
    ReplyView { status, body: BodyModel::Document(d) }
}

/// Whether an HTTP status is a success (200 to 299).
pub open spec fn is_success(status: u16) -> bool {
    200 <= status && status < 300
}

/// `{"error": msg}` as a document.
fn error_json(msg: String) -> (r: Json)
    ensures
        r@ == error_document(msg@),
{
    let ghost m = msg@;
    let value = Json::Str(msg);
    assert(value@ == JsonModel::Str(m));
    let mut fields: Vec<(String, Json)> = Vec::new();
    fields.push(("error".to_string(), value));
    let r = Json::Object(fields);
    assert(r@->Object_0 =~= error_document(m)->Object_0);
    r
}

/// `prefix` followed by `rest`.
fn prefixed(prefix: &str, rest: &str) -> (r: String)
    ensures
        r@ == prefix@ + rest@,
{
    let mut r = prefix.to_string();
    r.append(rest);
    r
}

/// The health document, which `/health` and `/` answer with status 200.
pub fn health_reply() -> (r: ProxyReply)
    ensures
        r@ == document_reply(200, health_model()),
{
    let ok = Json::Str("ok".to_string());
    let service = Json::Str("regolo-messages-proxy".to_string());
    assert(ok@ == JsonModel::Str("ok"@));
    assert(service@ == JsonModel::Str("regolo-messages-proxy"@));
    let mut fields: Vec<(String, Json)> = Vec::new();
    fields.push(("status".to_string(), ok));
    fields.push(("service".to_string(), service));
    let d = Json::Object(fields);
    assert(d@->Object_0 =~= health_model()->Object_0);
    ProxyReply { status: 200, body: ReplyBody::Document(d) }
}

/// What the Messages endpoint does next, once the upstream request went out.
pub enum ChatStep {
    /// Read the upstream answer as a chat response.
    ReadAnswer,
    /// Read the upstream error text; the upstream answered with this status.
    ReadFailure(u16),
    /// Answer the client at once.
    Reply(ProxyReply),
}

/// The step after sending a chat request: `sent` is the upstream status, or
/// the text of the error that kept the request from being answered.
pub fn chat_sent(sent: Result<u16, String>) -> (r: ChatStep)
    ensures
        match sent {
            Err(e) => r matches ChatStep::Reply(p) && p@ == document_reply(
                500,
                error_document("Proxy error: "@ + e@),
            ),
            Ok(s) => if is_success(s) {
                r is ReadAnswer
            } else {
                r == ChatStep::ReadFailure(s)
            },
        },
{
    match sent {
        Err(e) => {
            let msg = prefixed("Proxy error: ", e.as_str());
            ChatStep::Reply(ProxyReply { status: 500, body: ReplyBody::Document(error_json(msg)) })
        },
        Ok(s) => if 200 <= s && s < 300 {
            ChatStep::ReadAnswer
        } else {
            ChatStep::ReadFailure(s)
        },
    }
}

/// The reply once a successful upstream answer was read: the Anthropic
/// translation with status 200, whose message identifier is `"msg_"` and
/// `hex`, or 500 where the answer was no chat response (`Err` holds the
/// parse error's text).
pub fn chat_answered_with_id(
    answer: Result<ChatCompletionResponse, String>,
    model: &String,
    hex: &str,
) -> (r: ProxyReply)
    ensures
        match answer {
            Ok(resp) => r@ == ReplyView {
                status: 200,
                body: BodyModel::Message(reply_for(resp, model@, hex@)),
            },
            Err(e) => r@ == document_reply(500, error_document("Failed to parse response: "@ + e@)),
        },
{
    match answer {
        Ok(resp) => ProxyReply {
            status: 200,
            body: ReplyBody::Message(translate_to_anthropic_with_id(resp, model, hex)),
        },
        Err(e) => {
            let msg = prefixed("Failed to parse response: ", e.as_str());
            ProxyReply { status: 500, body: ReplyBody::Document(error_json(msg)) }
        },
    }
}

/// As [`chat_answered_with_id`], under a fresh random message identifier.
pub fn chat_answered(answer: Result<ChatCompletionResponse, String>, model: &String) -> (r:
    ProxyReply)
    ensures
        match answer {
            Ok(resp) => r.status == 200 && exists|hex: Seq<char>|
                #![trigger reply_for(resp, model@, hex)]
                hex.len() == 32 && (forall|i: int| 0 <= i < 32 ==> is_lower_hex(#[trigger] hex[i]))
                    && r@.body == BodyModel::Message(reply_for(resp, model@, hex)),
            Err(e) => r@ == document_reply(500, error_document("Failed to parse response: "@ + e@)),
        },
{
    match answer {
        Ok(resp) => {
            let ghost g = resp;
            let m = translate_to_anthropic(resp, model);
            let ghost hex = m@.id.skip(4);
            assert(forall|i: int| 0 <= i < 32 ==> is_lower_hex(#[trigger] hex[i])) by {
                assert forall|i: int| 0 <= i < 32 implies is_lower_hex(#[trigger] hex[i]) by {
                    assert(hex[i] == m@.id[i + 4]);
                }
            }
            let r = ProxyReply { status: 200, body: ReplyBody::Message(m) };
            assert(r@.body == BodyModel::Message(reply_for(g, model@, hex)));
            r
        },
        Err(e) => {
            let msg = prefixed("Failed to parse response: ", e.as_str());
            ProxyReply { status: 500, body: ReplyBody::Document(error_json(msg)) }
        },
    }
}

/// The reply where the upstream answered with an error status: that status,
/// with `{"error": "Regolo API error: <status>", "details": <its text>}`; the
/// text is empty where it could not be read.
pub fn chat_failed(status: u16, body: Option<String>) -> (r: ProxyReply)
    ensures
        r@ == document_reply(
            status,
            error_details_document(
                "Regolo API error: "@ + decimal(status as nat),
                match body {
                    Some(b) => b@,
                    None => Seq::empty(),
                },
            ),
        ),
{
    let details = match body {
        Some(b) => b,
        None => String::new(),
    };
    let ghost dv = details@;
    let code = decimal_string(status as u64);
    let msg = prefixed("Regolo API error: ", code.as_str());
    let ghost mv = msg@;
    let e = Json::Str(msg);
    let d = Json::Str(details);
    assert(e@ == JsonModel::Str(mv));
    assert(d@ == JsonModel::Str(dv));
    let mut fields: Vec<(String, Json)> = Vec::new();
    fields.push(("error".to_string(), e));
    fields.push(("details".to_string(), d));
    let doc = Json::Object(fields);
    assert(doc@->Object_0 =~= error_details_document(mv, dv)->Object_0);
    ProxyReply { status, body: ReplyBody::Document(doc) }
}

/// What the models endpoint does next, once the upstream request went out.
pub enum ModelsStep {
    /// Read the upstream text; the upstream answered with this status.
    ReadBody(u16),
    /// Answer the client at once.
    Reply(ProxyReply),
}

/// The step after asking the upstream for its models.
pub fn models_sent(sent: Result<u16, String>) -> (r: ModelsStep)
    ensures
        match sent {
            Ok(s) => r == ModelsStep::ReadBody(s),
            Err(e) => r matches ModelsStep::Reply(p) && p@ == document_reply(
                500,
                error_document("Failed to fetch models: "@ + e@),
            ),
        },
{
    match sent {
        Ok(s) => ModelsStep::ReadBody(s),
        Err(e) => {
            let msg = prefixed("Failed to fetch models: ", e.as_str());
            ModelsStep::Reply(ProxyReply { status: 500, body: ReplyBody::Document(error_json(msg)) })
        },
    }
}

/// The reply with the upstream's model list: its status and text as they
/// came, or 500 where the text could not be read.
pub fn models_read(status: u16, body: Result<String, String>) -> (r: ProxyReply)
    ensures
        match body {
            Ok(b) => r@ == ReplyView { status, body: BodyModel::Text(b@) },
            Err(e) => r@ == document_reply(500, error_document("Failed to read response: "@ + e@)),
        },
{
    match body {
        Ok(b) => ProxyReply { status, body: ReplyBody::Text(b) },
        Err(e) => {
            let msg = prefixed("Failed to read response: ", e.as_str());
            ProxyReply { status: 500, body: ReplyBody::Document(error_json(msg)) }
        },
    }
}

/// The standalone server answers 401 before anything else where it holds no
/// API key.
pub fn missing_key_reply(api_key: &String) -> (r: Option<ProxyReply>)
    ensures
        match r {
            Some(p) => api_key@.len() == 0 && p@ == document_reply(
                401,
                error_document("REGOLO_API_KEY not found"@),
            ),
            None => api_key@.len() > 0,
        },
{
    if api_key.as_str().is_empty() {
        let msg = "REGOLO_API_KEY not found".to_string();
        Some(ProxyReply { status: 401, body: ReplyBody::Document(error_json(msg)) })
    } else {
        None
    }
}

} // verus!
