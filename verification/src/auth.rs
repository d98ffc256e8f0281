use vstd::prelude::*;
use crate::json::{
    Json, JsonModel, canonical, compact_text, field_text, lemma_lookup_at, nests_within,
    parse_document, parsed_document, reads_back, to_compact_text,
};

verus! {

/// The auth file's document: `{"api_key": key}`.
pub open spec fn auth_model(key: Seq<char>) -> JsonModel {
    JsonModel::Object(seq![("api_key"@, JsonModel::Str(key))])
}

/// The key that an auth file's text holds: its `api_key` string, where the
/// text is a JSON document that has one.
pub open spec fn key_in_auth_text(content: Seq<char>) -> Option<Seq<char>> {
    match parsed_document(content) {
        Some(d) => field_text(d, "api_key"@),
        None => None,
    }
}

pub open spec fn opt_view(s: Option<String>) -> Option<Seq<char>> {
    match s {
        Some(t) => Some(t@),
        None => None,
    }
}

/// The API key of the command line: the environment's, where it is set and
/// not empty, else the auth file's.
pub open spec fn chosen_key(env: Option<Seq<char>>, file: Option<Seq<char>>) -> Option<Seq<char>> {
    if env is Some && env->0.len() > 0 {
        env
    } else {
        match file {
            Some(c) => key_in_auth_text(c),
            None => None,
        }
    }
}

/// The API key of the standalone server: the environment's, where it is set
/// (empty or not), else the auth file's, else the empty key.
pub open spec fn standalone_key(env: Option<Seq<char>>, file: Option<Seq<char>>) -> Seq<char> {
    match env {
        Some(k) => k,
        None => match file {
            Some(c) => match key_in_auth_text(c) {
                Some(k) => k,
                None => Seq::empty(),
            },
            None => Seq::empty(),
        },
    }
}

/// The text to store in the auth file for `key`. What is stored is what is
/// read: the text reads back as the same document, which holds the key.
pub fn auth_document(key: &str) -> (r: String)
    ensures
        r@ == compact_text(auth_model(key@)),
        parsed_document(r@) == Some(auth_model(key@)),
        key_in_auth_text(r@) == Some(key@),
{
    let ghost k = key@;
    let value = Json::Str(key.to_string());
    assert(value@ == JsonModel::Str(k));
    let mut fields: Vec<(String, Json)> = Vec::new();
    fields.push(("api_key".to_string(), value));
    let d = Json::Object(fields);
    assert(d@->Object_0 =~= auth_model(k)->Object_0);
    proof {
        let fields = auth_model(k)->Object_0;
        lemma_lookup_at(fields, "api_key"@, 0);
        assert(canonical(fields[0].1));
        assert(nests_within(fields[0].1, 126));
        assert(reads_back(auth_model(k)));
    }
    to_compact_text(&d)
}

/// The key that an auth file's text holds (see [`key_in_auth_text`]).
pub fn key_from_auth_text(content: &str) -> (r: Option<String>)
    ensures
        opt_view(r) == key_in_auth_text(content@),
{
    match parse_document(content) {
        Ok(d) => {
            let key = "api_key".to_string();
            match d.get_str(&key) {
                Some(k) => Some(k.clone()),
                None => None,
            }
        },
        Err(_) => None,
    }
}

/// The command line's API key (see [`chosen_key`]): `env` is the
/// `REGOLO_API_KEY` variable, `file` the auth file's text where it could be
/// read.
pub fn load_api_key(env: Option<String>, file: Option<String>) -> (r: Option<String>)
    ensures
        opt_view(r) == chosen_key(opt_view(env), opt_view(file)),
{
    if let Some(k) = env {
        if !k.as_str().is_empty() {
            return Some(k);
        }
    }
    match file {
        Some(c) => key_from_auth_text(c.as_str()),
        None => None,
    }
}

/// The standalone server's API key (see [`standalone_key`]).
pub fn get_api_key(env: Option<String>, file: Option<String>) -> (r: String)
    ensures
        r@ == standalone_key(opt_view(env), opt_view(file)),
{
    match env {
        Some(k) => k,
        None => match file {
            Some(c) => match key_from_auth_text(c.as_str()) {
                Some(k) => k,
                None => String::new(),
            },
            None => String::new(),
        },
    }
}

} // verus!
