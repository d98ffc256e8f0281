use vstd::prelude::*;
use crate::json::{
    Json, JsonModel, field, field_text, parse_document, parsed_document,
};
use crate::text::{decimal, decimal_string, texts};

verus! {

/// The Regolo API's base address.
pub open spec fn api_base() -> Seq<char> {
    "https://api.regolo.ai"@
}

/// The upstream address for chat completions.
pub fn chat_completions_url() -> (r: String)
    ensures
        r@ == api_base() + "/v1/chat/completions"@,
{
    let mut r = "https://api.regolo.ai".to_string();
    r.append("/v1/chat/completions");
    r
}

/// The upstream address for the model list.
pub fn models_url() -> (r: String)
    ensures
        r@ == api_base() + "/models"@,
{
    let mut r = "https://api.regolo.ai".to_string();
    r.append("/models");
    r
}

/// The `Authorization` header's value for a key.
pub fn bearer(api_key: &str) -> (r: String)
    ensures
        r@ == "Bearer "@ + api_key@,
{
    let mut r = "Bearer ".to_string();
    r.append(api_key);
    r
}

/// The address the proxy binds to for a port (0 asks for any free port).
pub fn bind_address(port: u16) -> (r: String)
    ensures
        r@ == "0.0.0.0:"@ + decimal(port as nat),
{
    let mut r = "0.0.0.0:".to_string();
    let p = decimal_string(port as u64);
    r.append(p.as_str());
    r
}

/// The address under which the launched client reaches the proxy on `port`.
pub fn proxy_base_url(port: u16) -> (r: String)
    ensures
        r@ == "http://localhost:"@ + decimal(port as nat),
{
    let mut r = "http://localhost:".to_string();
    let p = decimal_string(port as u64);
    r.append(p.as_str());
    r
}

/// The environment the client program is launched with: the key, the model and the
/// proxy's address, in that order.
pub open spec fn claude_env_model(api_key: Seq<char>, model: Seq<char>, port: u16) -> Seq<
    (Seq<char>, Seq<char>),
> {
    seq![
        ("ANTHROPIC_API_KEY"@, api_key),
        ("ANTHROPIC_MODEL"@, model),
        ("ANTHROPIC_BASE_URL"@, "http://localhost:"@ + decimal(port as nat)),
    ]
}

pub open spec fn pairs_view(v: Seq<(String, String)>) -> Seq<(Seq<char>, Seq<char>)> {
    Seq::new(v.len(), |i: int| (v[i].0@, v[i].1@))
}

/// The environment variables for the launched client (see [`claude_env_model`]).
pub fn claude_environment(api_key: &str, model: &str, port: u16) -> (r: Vec<(String, String)>)
    ensures
        pairs_view(r@) == claude_env_model(api_key@, model@, port),
{
    let mut r: Vec<(String, String)> = Vec::new();
    r.push(("ANTHROPIC_API_KEY".to_string(), api_key.to_string()));
    r.push(("ANTHROPIC_MODEL".to_string(), model.to_string()));
    r.push(("ANTHROPIC_BASE_URL".to_string(), proxy_base_url(port)));
    assert(pairs_view(r@) =~= claude_env_model(api_key@, model@, port));
    r
}

/// The characters with the Unicode `White_Space` property, which
/// `char::is_whitespace` accepts.
pub open spec fn is_white_space(c: char) -> bool {
    let u = c as u32;
    ||| 0x9 <= u <= 0xd
    ||| u == 0x20
    ||| u == 0x85
    ||| u == 0xa0
    ||| u == 0x1680
    ||| 0x2000 <= u <= 0x200a
    ||| u == 0x2028
    ||| u == 0x2029
    ||| u == 0x202f
    ||| u == 0x205f
    ||| u == 0x3000
}

/// `s` without its leading white space.
pub open spec fn trimmed_start(s: Seq<char>) -> Seq<char>
    decreases s.len(),
{
    if s.len() > 0 && is_white_space(s[0]) {
        trimmed_start(s.drop_first())
    } else {
        s
    }
}

/// `s` without its trailing white space.
pub open spec fn trimmed_end(s: Seq<char>) -> Seq<char>
    decreases s.len(),
{
    if s.len() > 0 && is_white_space(s.last()) {
        trimmed_end(s.drop_last())
    } else {
        s
    }
}

/// `s` without leading and trailing white space.
pub open spec fn trimmed(s: Seq<char>) -> Seq<char> {
    trimmed_end(trimmed_start(s))
}

/// Whether `c` is white space (see [`is_white_space`]).
fn white_space(c: char) -> (r: bool)
    ensures
        r == is_white_space(c),
{
    let u = c as u32;
    (0x9 <= u && u <= 0xd) || u == 0x20 || u == 0x85 || u == 0xa0 || u == 0x1680
        || (0x2000 <= u && u <= 0x200a) || u == 0x2028 || u == 0x2029 || u == 0x202f
        || u == 0x205f || u == 0x3000
}

/// Dropping a white prefix of length `a` leaves what `trimmed_start` leaves,
/// where `a` stops at the first character that is no white space.
proof fn lemma_trimmed_start(s: Seq<char>, a: int)
    requires
        0 <= a <= s.len(),
        forall|i: int| 0 <= i < a ==> is_white_space(#[trigger] s[i]),
        a < s.len() ==> !is_white_space(s[a]),
    ensures
        trimmed_start(s) == s.subrange(a, s.len() as int),
    decreases a,
{
    if a == 0 {
        assert(s.subrange(0, s.len() as int) =~= s);
    } else {
        let t = s.drop_first();
        assert forall|i: int| 0 <= i < a - 1 implies is_white_space(#[trigger] t[i]) by {
            assert(t[i] == s[i + 1]);
        }
        lemma_trimmed_start(t, a - 1);
        assert(t.subrange(a - 1, t.len() as int) =~= s.subrange(a, s.len() as int));
    }
}

/// Dropping a white suffix from index `b` on leaves what `trimmed_end`
/// leaves, where `b` stops after the last character that is no white space.
proof fn lemma_trimmed_end(s: Seq<char>, b: int)
    requires
        0 <= b <= s.len(),
        forall|i: int| b <= i < s.len() ==> is_white_space(#[trigger] s[i]),
        b > 0 ==> !is_white_space(s[b - 1]),
    ensures
        trimmed_end(s) == s.subrange(0, b),
    decreases s.len() - b,
{
    if b == s.len() {
        assert(s.subrange(0, b) =~= s);
    } else {
        let t = s.drop_last();
        assert forall|i: int| b <= i < t.len() implies is_white_space(#[trigger] t[i]) by {
            assert(t[i] == s[i]);
        }
        lemma_trimmed_end(t, b);
        assert(t.subrange(0, b) =~= s.subrange(0, b));
    }
}

/// `s` without leading and trailing white space, as `str::trim` gives it.
fn trim(s: &str) -> (r: String)
    ensures
        r@ == trimmed(s@),
{
    let n = s.unicode_len();
    let mut a: usize = 0;
    while a < n && white_space(s.get_char(a))
        invariant
            a <= n,
            n == s@.len(),
            forall|i: int| 0 <= i < a ==> is_white_space(#[trigger] s@[i]),
        decreases n - a,
    {
        a = a + 1;
    }
    let mut b: usize = n;
    while b > a && white_space(s.get_char(b - 1))
        invariant
            a <= b <= n,
            n == s@.len(),
            forall|i: int| b <= i < n ==> is_white_space(#[trigger] s@[i]),
        decreases b - a,
    {
        b = b - 1;
    }
    proof {
        lemma_trimmed_start(s@, a as int);
        let t = s@.subrange(a as int, n as int);
        assert forall|i: int| b - a <= i < t.len() implies is_white_space(#[trigger] t[i]) by {
            assert(t[i] == s@[a + i]);
        }
        if b > a {
            assert(t[b - a - 1] == s@[b - 1]);
        }
        lemma_trimmed_end(t, b - a);
        assert(t.subrange(0, b - a) =~= s@.subrange(a as int, b as int));
    }
    s.substring_char(a, b).to_string()
}

/// The key the user typed, trimmed; `None` where nothing but white space
/// was typed.
pub fn login_key(entered: &str) -> (r: Option<String>)
    ensures
        match r {
            Some(k) => k@ == trimmed(entered@) && k@.len() > 0,
            None => trimmed(entered@).len() == 0,
        },
{
    let key = trim(entered);
    if key.as_str().is_empty() {
        None
    } else {
        Some(key)
    }
}

/// The `id`s of the items of an array that have a string `id`.
pub open spec fn ids_of(models: Seq<JsonModel>) -> Seq<Seq<char>>
    decreases models.len(),
{
    if models.len() == 0 {
        Seq::empty()
    } else {
        ids_of(models.drop_last()) + match field_text(models.last(), "id"@) {
            Some(id) => seq![id],
            None => Seq::empty(),
        }
    }
}

/// The model names in the upstream's model list: the string `id`s of the
/// items of its `data` array, in order; none where there is no such array.
pub open spec fn listed_models(data: JsonModel) -> Seq<Seq<char>> {
    match field(data, "data"@) {
        Some(JsonModel::Array(models)) => ids_of(models),
        _ => Seq::empty(),
    }
}

/// The model names in the upstream's model list (see [`listed_models`]).
pub fn model_ids(data: &Json) -> (r: Vec<String>)
    ensures
        texts(r@) == listed_models(data@),
{
    let data_key = "data".to_string();
    let id_key = "id".to_string();
    let mut r: Vec<String> = Vec::new();
    match data.get(&data_key) {
        Some(Json::Array(models)) => {
            let ghost a = field(data@, "data"@)->0->Array_0;
            let mut i: usize = 0;
            while i < models.len()
                invariant
                    0 <= i <= models.len(),
                    id_key@ == "id"@,
                    a.len() == models.len(),
                    forall|j: int| 0 <= j < models.len() ==> a[j] == #[trigger] models[j]@,
                    texts(r@) == ids_of(a.take(i as int)),
                decreases models.len() - i,
            {
                let ghost before = r@;
                match models[i].get_str(&id_key) {
                    Some(id) => {
                        r.push(id.clone());
                    },
                    None => {},
                }
                assert(a.take(i + 1).drop_last() =~= a.take(i as int));
                assert(texts(r@) =~= ids_of(a.take(i + 1)));
                i = i + 1;
            }
            assert(a.take(models.len() as int) =~= a);
            r
        },
        _ => {
            assert(texts(r@) =~= Seq::<Seq<char>>::empty());
            r
        },
    }
}

/// What the model listing reports when the upstream's answer is no JSON
/// document: the HTTP client's message for a body it could not decode.
pub open spec fn undecodable_body() -> Seq<char> {
    "error decoding response body"@
}

/// The model names in the upstream's answer to a model-list request: the
/// names listed in the document the body holds (see [`listed_models`]), or,
/// where the body is no JSON, the message [`undecodable_body`].
pub fn models_in_body(body: &str) -> (r: Result<Vec<String>, String>)
    ensures
        r is Ok <==> parsed_document(body@) is Some,
        match r {
            Ok(ids) => texts(ids@) == listed_models(parsed_document(body@)->0),
            Err(e) => e@ == undecodable_body(),
        },
{
    match parse_document(body) {
        Ok(data) => Ok(model_ids(&data)),
        Err(_) => Err("error decoding response body".to_string()),
    }
}

} // verus!
