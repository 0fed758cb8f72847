//! The few places where the library leans on outside code: each function here
//! is trusted, its contract stating what the named outside function does.
use vstd::prelude::*;
use crate::json::{Json, JsonV};

verus! {

/// Relies on std's String::push: appends one character at the end.
#[verifier::external_body]
pub fn push_char(s: &mut String, c: char)
    ensures
        final(s)@ == old(s)@.push(c),
{
    s.push(c);
}

/// A name for what `url::Url::parse` accepts and returns: `Some` with the
/// parsed URL's normalized serialization exactly when the text is a valid
/// absolute URL, `None` otherwise.
pub uninterp spec fn url_normalized(s: Seq<char>) -> Option<Seq<char>>;

/// Relies on url::Url::parse and url::Url::as_str: parses an absolute URL
/// and hands back its normalized text.
#[verifier::external_body]
pub fn normalize_url(s: &str) -> (r: Option<String>)
    ensures
        match r {
            Some(u) => url_normalized(s@) == Some(u@),
            None => url_normalized(s@) is None,
        },
{
    match url::Url::parse(s) {
        Ok(u) => Some(String::from(u)),
        Err(_) => None,
    }
}

/// A name for what `form_urlencoded::byte_serialize` makes of one string:
/// its application/x-www-form-urlencoded encoding.
pub uninterp spec fn form_encoded(s: Seq<char>) -> Seq<char>;

/// Relies on form_urlencoded::byte_serialize: percent-encodes one query
/// component, with space as `+`.
#[verifier::external_body]
pub fn form_encode_component(s: &str) -> (r: String)
    ensures
        r@ == form_encoded(s@),
{
    form_urlencoded::byte_serialize(s.as_bytes()).collect()
}

#[verifier::external_type_specification]
#[verifier::external_body]
pub struct ExValue(serde_json::Value);

/// A name for what `serde_json::from_str` accepts: whether the text is a
/// well-formed JSON document.
pub uninterp spec fn is_json_text(s: Seq<char>) -> bool;

/// A name for the document that `serde_json::from_str` reads out of a text,
/// carried over onto the library's JSON model by `value_json`; meaningful
/// only where `is_json_text` holds.
pub uninterp spec fn json_of(s: Seq<char>) -> JsonV;

/// Maps each variant of a parsed serde_json document onto the library's JSON
/// type, variant for variant; a number that fits no 64-bit integer keeps its
/// canonical text under `Json::Num`. Only `parse_json` applies it.
#[verifier::external_body]
fn value_json(v: serde_json::Value) -> (r: Json) {
    match v {
        serde_json::Value::Null => Json::Null,
        serde_json::Value::Bool(b) => Json::Bool(b),
        serde_json::Value::String(s) => Json::Str(s),
        serde_json::Value::Number(n) => match (n.as_u64(), n.as_i64()) {
            (Some(u), _) => Json::UInt(u),
            (None, Some(i)) => Json::NInt(i.unsigned_abs()),
            _ => Json::Num(n.to_string()),
        },
        serde_json::Value::Array(a) => Json::Arr(a.into_iter().map(value_json).collect()),
        serde_json::Value::Object(o) => Json::Obj(
            o.into_iter().map(|(k, x)| (k, value_json(x))).collect(),
        ),
    }
}

/// Relies on serde_json::from_str: reads one JSON document — `Some` exactly
/// when the text is well-formed JSON — and hands it over as `json_of` of the
/// text. Both names are functions of the text alone: the parse is
/// deterministic (objects come back sorted by key), and so is the mapping
/// `value_json` makes of the parsed tree.
#[verifier::external_body]
pub fn parse_json(s: &str) -> (r: Option<Json>)
    ensures
        (r is Some) == is_json_text(s@),
        r matches Some(j) ==> j@ == json_of(s@),
{
    serde_json::from_str::<serde_json::Value>(s).ok().map(value_json)
}

} // verus!
