use serde_json::Value;
use vstd::prelude::*;

verus! {

/// A JSON number that is no integer, carried through unchanged: the logic
/// never looks inside one.
#[verifier::external_type_specification]
#[verifier::external_body]
pub struct ExNumber(serde_json::Number);

/// A `serde_json` document, only handed between the two wrappers that call
/// `serde_json`; the logic works on [`Json`].
#[verifier::external_type_specification]
#[verifier::external_body]
pub struct ExValue(serde_json::Value);

/// A JSON number: a non-negative integer, a negative integer, or any other
/// number (a float), held as `serde_json` holds it.
#[derive(Debug)]
pub enum JsonNumber {
    Unsigned(u64),
    Negative(i64),
    Float(serde_json::Number),
}

/// A JSON document. Object fields keep the order in which they were given.
#[derive(Debug)]
pub enum Json {
    Null,
    Bool(bool),
    Number(JsonNumber),
    Str(String),
    Array(Vec<Json>),
    Object(Vec<(String, Json)>),
}

/// The mathematical value of a [`Json`] document.
pub enum JsonModel {
    Null,
    Bool(bool),
    Number(JsonNumber),
    Str(Seq<char>),
    Array(Seq<JsonModel>),
    Object(Seq<(Seq<char>, JsonModel)>),
}

impl Json {
    /// The document's value: strings by their characters, arrays and
    /// objects item by item.
    pub open spec fn model(self) -> JsonModel
        decreases self,
    {
        match self {
            Json::Null => JsonModel::Null,
            Json::Bool(b) => JsonModel::Bool(b),
            Json::Number(n) => JsonModel::Number(n),
            Json::Str(s) => JsonModel::Str(s@),
            Json::Array(items) => JsonModel::Array(
                Seq::new(
                    items.len() as nat,
                    |i: int|
                        if 0 <= i < items.len() {
                            items[i].model()
                        } else {
                            JsonModel::Null
                        },
                ),
            ),
            Json::Object(fields) => JsonModel::Object(
                Seq::new(
                    fields.len() as nat,
                    |i: int|
                        if 0 <= i < fields.len() {
                            (fields[i].0@, fields[i].1.model())
                        } else {
                            (Seq::empty(), JsonModel::Null)
                        },
                ),
            ),
        }
    }
}

impl View for Json {
    type V = JsonModel;

    open spec fn view(&self) -> JsonModel {
        self.model()
    }
}

/// The value stored under `key` in `fields`, looking from index `i` on;
/// the first field with that key wins.
pub open spec fn lookup_from(fields: Seq<(Seq<char>, JsonModel)>, key: Seq<char>, i: int) -> Option<
    JsonModel,
>
    decreases fields.len() - i,
{
    if i < 0 || i >= fields.len() {
        None
    } else if fields[i].0 == key {
        Some(fields[i].1)
    } else {
        lookup_from(fields, key, i + 1)
    }
}

/// The value of field `key` of a document: `None` where the document is no
/// object or has no such field.
pub open spec fn field(v: JsonModel, key: Seq<char>) -> Option<JsonModel> {
    match v {
        JsonModel::Object(fields) => lookup_from(fields, key, 0),
        _ => None,
    }
}

/// The text of a document that is a JSON string.
pub open spec fn as_text(v: JsonModel) -> Option<Seq<char>> {
    match v {
        JsonModel::Str(s) => Some(s),
        _ => None,
    }
}

/// The text of field `key`, where that field exists and is a JSON string.
pub open spec fn field_text(v: JsonModel, key: Seq<char>) -> Option<Seq<char>> {
    match field(v, key) {
        Some(x) => as_text(x),
        None => None,
    }
}

/// The text of field `key`, or the empty text where it is missing or no string.
pub open spec fn field_text_or_empty(v: JsonModel, key: Seq<char>) -> Seq<char> {
    match field_text(v, key) {
        Some(s) => s,
        None => Seq::empty(),
    }
}

proof fn lemma_lookup_from(fields: Seq<(Seq<char>, JsonModel)>, key: Seq<char>, k: int, i: int)
    requires
        0 <= k <= i < fields.len(),
        fields[i].0 == key,
        forall|j: int| k <= j < i ==> fields[j].0 != key,
    ensures
        lookup_from(fields, key, k) == Some(fields[i].1),
    decreases i - k,
{
    if k < i {
        lemma_lookup_from(fields, key, k + 1, i);
    }
}

/// The field at index `i` is found where no earlier field has its key.
pub proof fn lemma_lookup_at(fields: Seq<(Seq<char>, JsonModel)>, key: Seq<char>, i: int)
    requires
        0 <= i < fields.len(),
        fields[i].0 == key,
        forall|j: int| 0 <= j < i ==> fields[j].0 != key,
    ensures
        field(JsonModel::Object(fields), key) == Some(fields[i].1),
{
    lemma_lookup_from(fields, key, 0, i);
}

impl Json {
    /// The value of field `key` of an object.
    pub fn get<'a>(&'a self, key: &String) -> (r: Option<&'a Json>)
        ensures
            match r {
                Some(x) => field(self@, key@) == Some(x@),
                None => field(self@, key@) is None,
            },
    {
        match self {
            Json::Object(fields) => {
                let mut i: usize = 0;
                while i < fields.len()
                    invariant
                        0 <= i <= fields.len(),
                        self@ is Object,
                        *self == Json::Object(*fields),
                        field(self@, key@) == lookup_from(self@->Object_0, key@, i as int),
                    decreases fields.len() - i,
                {
                    if fields[i].0 == *key {
                        return Some(&fields[i].1);
                    }
                    i = i + 1;
                }
                None
            },
            _ => None,
        }
    }

    /// The text of a JSON string.
    pub fn as_str(&self) -> (r: Option<&String>)
        ensures
            match r {
                Some(s) => as_text(self@) == Some(s@),
                None => as_text(self@) is None,
            },
    {
        match self {
            Json::Str(s) => Some(s),
            _ => None,
        }
    }

    /// The text of field `key`, where it is a JSON string.
    pub fn get_str<'a>(&'a self, key: &String) -> (r: Option<&'a String>)
        ensures
            match r {
                Some(s) => field_text(self@, key@) == Some(s@),
                None => field_text(self@, key@) is None,
            },
    {
        match self.get(key) {
            Some(v) => v.as_str(),
            None => None,
        }
    }
}

/// `serde_json::Number::clone`: the copy is the same number.
#[verifier::external_body]
fn copy_number(n: &serde_json::Number) -> (r: serde_json::Number)
    ensures
        r == *n,
{
    n.clone()
}

impl JsonNumber {
    /// A copy of the number.
    pub fn copy(&self) -> (r: JsonNumber)
        ensures
            r == *self,
    {
        match self {
            JsonNumber::Unsigned(u) => JsonNumber::Unsigned(*u),
            JsonNumber::Negative(i) => JsonNumber::Negative(*i),
            JsonNumber::Float(n) => JsonNumber::Float(copy_number(n)),
        }
    }
}

impl Json {
    /// A copy of the document with the same value.
    pub fn deep_copy(&self) -> (r: Json)
        ensures
            r@ == self@,
        decreases self,
    {
        match self {
            Json::Null => Json::Null,
            Json::Bool(b) => Json::Bool(*b),
            Json::Number(n) => Json::Number(n.copy()),
            Json::Str(s) => Json::Str(s.clone()),
            Json::Array(items) => {
                let mut out: Vec<Json> = Vec::new();
                let mut i: usize = 0;
                while i < items.len()
                    invariant
                        0 <= i <= items.len(),
                        out.len() == i,
                        *self == Json::Array(*items),
                        forall|j: int| 0 <= j < i ==> (#[trigger] out[j]).model() == items[j].model(),
                    decreases items.len() - i,
                {
                    proof {
                        assert(decreases_to!(*self => self->Array_0));
                        assert(decreases_to!(*items => items[i as int]));
                    }
                    let c = items[i].deep_copy();
                    out.push(c);
                    i = i + 1;
                }
                let r = Json::Array(out);
                assert(r@->Array_0 =~= self@->Array_0);
                r
            },
            Json::Object(fields) => {
                let mut out: Vec<(String, Json)> = Vec::new();
                let mut i: usize = 0;
                while i < fields.len()
                    invariant
                        0 <= i <= fields.len(),
                        out.len() == i,
                        *self == Json::Object(*fields),
                        forall|j: int|
                            0 <= j < i ==> #[trigger] out[j].0@ == fields[j].0@ && out[j].1@
                                == fields[j].1@,
                    decreases fields.len() - i,
                {
                    proof {
                        assert(decreases_to!(*self => self->Object_0));
                        assert(decreases_to!(*fields => fields[i as int]));
                        assert(decreases_to!(fields[i as int] => fields[i as int].1));
                    }
                    let c = fields[i].1.deep_copy();
                    out.push((fields[i].0.clone(), c));
                    i = i + 1;
                }
                let r = Json::Object(out);
                assert(r@->Object_0 =~= self@->Object_0);
                r
            },
        }
    }
}

/// The compact text that `serde_json` prints for a document (its `Display`).
pub uninterp spec fn compact_text(v: JsonModel) -> Seq<char>;

/// The document that `serde_json::from_str` reads from a text, `None` where
/// the text is no JSON.
pub uninterp spec fn parsed_document(text: Seq<char>) -> Option<JsonModel>;

/// The message of the error `serde_json::from_str` gives for a text that is
/// no JSON.
pub uninterp spec fn parse_error_text(text: Seq<char>) -> Seq<char>;

/// `a` comes before `b` in the order of Rust strings: by code points,
/// character by character, a proper prefix first (UTF-8 keeps that order
/// byte by byte).
pub open spec fn text_less(a: Seq<char>, b: Seq<char>) -> bool
    decreases a.len(),
{
    if a.len() == 0 {
        b.len() > 0
    } else if b.len() == 0 {
        false
    } else if a[0] != b[0] {
        (a[0] as u32) < (b[0] as u32)
    } else {
        text_less(a.drop_first(), b.drop_first())
    }
}

/// Arrays and objects nest at most `d` deep in `v`.
pub open spec fn nests_within(v: JsonModel, d: int) -> bool
    decreases v,
{
    match v {
        JsonModel::Array(items) => d >= 1 && forall|i: int|
            0 <= i < items.len() ==> nests_within(#[trigger] items[i], d - 1),
        JsonModel::Object(fields) => d >= 1 && forall|i: int|
            0 <= i < fields.len() ==> nests_within(#[trigger] fields[i].1, d - 1),
        _ => true,
    }
}

/// `v` holds no float, its negative integers are below zero, and the keys of
/// each object are strictly ascending.
pub open spec fn canonical(v: JsonModel) -> bool
    decreases v,
{
    match v {
        JsonModel::Number(JsonNumber::Unsigned(_)) => true,
        JsonModel::Number(JsonNumber::Negative(i)) => i < 0,
        JsonModel::Number(JsonNumber::Float(_)) => false,
        JsonModel::Array(items) => forall|i: int|
            0 <= i < items.len() ==> canonical(#[trigger] items[i]),
        JsonModel::Object(fields) => (forall|i: int|
            0 <= i < fields.len() - 1 ==> text_less(#[trigger] fields[i].0, fields[i + 1].0))
            && forall|i: int| 0 <= i < fields.len() ==> canonical(#[trigger] fields[i].1),
        _ => true,
    }
}

/// The documents that `serde_json` reads back as themselves from the text
/// it prints for them: no floats, keys sorted and without repeats, and no
/// deeper nesting than its reader's limit of 127.
pub open spec fn reads_back(v: JsonModel) -> bool {
    canonical(v) && nests_within(v, 127)
}

/// Builds the `serde_json::Value` that holds the same document, field by
/// field; nothing is claimed of the result, which only the two wrappers
/// below hand to `serde_json`.
#[verifier::external_body]
fn to_serde(v: &Json) -> Value {
    match v {
        Json::Null => Value::Null,
        Json::Bool(b) => Value::Bool(*b),
        Json::Number(JsonNumber::Unsigned(u)) => Value::Number((*u).into()),
        Json::Number(JsonNumber::Negative(i)) => Value::Number((*i).into()),
        Json::Number(JsonNumber::Float(n)) => Value::Number(n.clone()),
        Json::Str(s) => Value::String(s.clone()),
        Json::Array(a) => Value::Array(a.iter().map(to_serde).collect()),
        Json::Object(f) => Value::Object(
            f.iter().map(|(k, x)| (k.clone(), to_serde(x))).collect(),
        ),
    }
}

/// Builds the [`Json`] that holds the same document as a `Value`,
/// variant by variant; nothing is claimed of the result, which only
/// [`parse_document`] returns.
#[verifier::external_body]
fn from_serde(v: Value) -> Json {
    match v {
        Value::Null => Json::Null,
        Value::Bool(b) => Json::Bool(b),
        Value::Number(n) => Json::Number(match (n.as_u64(), n.as_i64()) {
            (Some(u), _) => JsonNumber::Unsigned(u),
            (None, Some(i)) => JsonNumber::Negative(i),
            (None, None) => JsonNumber::Float(n),
        }),
        Value::String(s) => Json::Str(s),
        Value::Array(a) => Json::Array(a.into_iter().map(from_serde).collect()),
        Value::Object(m) => Json::Object(
            m.into_iter().map(|(k, x)| (k, from_serde(x))).collect(),
        ),
    }
}

/// `serde_json::Value::to_string` (its `Display`, the compact format).
/// Claimed: the text is [`compact_text`] of the document; an empty object
/// prints as `{}` (the serializer opens and closes a map with no entries);
/// and `serde_json::from_str` reads a document that [`reads_back`] from its
/// text as the same document: strings are written escaped and read
/// unescaped, integers are written in decimal and read as the same integer,
/// objects are written from a `BTreeMap` in key order and read into one, and
/// the reader refuses only nesting of 128 or more. Nothing is claimed of
/// other documents: floats need not round-trip without the crate's
/// `float_roundtrip` feature, and keys come out sorted.
#[verifier::external_body]
pub(crate) fn to_compact_text(v: &Json) -> (s: String)
    ensures
        s@ == compact_text(v@),
        v@ == JsonModel::Object(Seq::empty()) ==> s@ == seq!['{', '}'],
        reads_back(v@) ==> parsed_document(s@) == Some(v@),
{
    to_serde(v).to_string()
}

/// `serde_json::from_str::<serde_json::Value>`. Claimed: the result is
/// [`parsed_document`] of the text; a failed parse gives the error's message,
/// [`parse_error_text`] of the text.
#[verifier::external_body]
pub(crate) fn parse_document(text: &str) -> (r: Result<Json, String>)
    ensures
        match r {
            Ok(j) => parsed_document(text@) == Some(j@),
            Err(e) => parsed_document(text@) is None && e@ == parse_error_text(text@),
        },
{
    serde_json::from_str::<serde_json::Value>(text).map(from_serde).map_err(|e| e.to_string())
}

} // verus!
