//! JSON documents as plain values.
//!
//! The text is parsed by `serde_json`; what comes back is copied into
//! [`JsonValue`], which the rest of the library reads.

use serde_json::Value;
use vstd::prelude::*;
use crate::text::same_text;

verus! {

/// The outside type that the parser returns.
#[verifier::external_type_specification]
#[verifier::external_body]
pub struct ExValue(serde_json::Value);

/// A JSON number. Only whole numbers are kept: the documents of this library
/// hold no others.
#[derive(Clone, Copy, Debug, PartialEq, Eq, Structural)]
pub enum JsonNumber {
    /// A whole number from zero up.
    Unsigned(u64),
    /// A whole number below zero.
    Negative(i64),
    /// Any other number: one with a fraction or an exponent, or a whole number
    /// outside the two ranges above.
    Other,
}

/// A JSON value.
#[derive(Debug)]
pub enum JsonValue {
    Null,
    Bool(bool),
    Number(JsonNumber),
    Text(String),
    Array(Vec<JsonValue>),
    /// The members of an object, each key once.
    Object(Vec<JsonMember>),
}

/// One member of a JSON object.
#[derive(Debug)]
pub struct JsonMember {
    pub key: String,
    pub value: JsonValue,
}

/// What `serde_json::from_str` makes of `text`, read as a `serde_json::Value`
/// and copied into a [`JsonValue`]; `None` where it reports an error.
pub uninterp spec fn json_document(text: Seq<char>) -> Option<JsonValue>;

/// The outside type of a JSON number.
#[verifier::external_type_specification]
#[verifier::external_body]
pub struct ExNumber(serde_json::Number);

/// Copies a `serde_json::Number`: what `Number::as_u64` gives, else what
/// `Number::as_i64` gives, and `Other` where both give nothing.
#[verifier::external_body]
fn lift_number(number: &serde_json::Number) -> JsonNumber {
    match (number.as_u64(), number.as_i64()) {
        (Some(u), _) => JsonNumber::Unsigned(u),
        (_, Some(i)) => JsonNumber::Negative(i),
        _ => JsonNumber::Other,
    }
}

/// Copies a `serde_json::Value` into a [`JsonValue`], variant by variant, the
/// members of an object in the order in which its map hands them out.
#[verifier::external_body]
fn lift_value(value: &Value) -> JsonValue {
    match value {
        Value::Null => JsonValue::Null,
        Value::Bool(b) => JsonValue::Bool(*b),
        Value::Number(n) => JsonValue::Number(lift_number(n)),
        Value::String(s) => JsonValue::Text(s.clone()),
        Value::Array(a) => JsonValue::Array(a.iter().map(lift_value).collect()),
        Value::Object(m) => JsonValue::Object(
            m.iter().map(|(k, v)| JsonMember { key: k.clone(), value: lift_value(v) }).collect(),
        ),
    }
}

/// Parses `text` with `serde_json::from_str`. The result is the document that
/// [`json_document`] names, or `None` where the parser reports an error.
#[verifier::external_body]
pub(crate) fn parse_json(text: &str) -> (doc: Option<JsonValue>)
    ensures
        doc == json_document(text@),
{
    match serde_json::from_str::<Value>(text) {
        Ok(value) => Some(lift_value(&value)),
        Err(_) => None,
    }
}

/// The texts in `texts`, each as its characters.
pub open spec fn texts_of(texts: Seq<String>) -> Seq<Seq<char>> {
    Seq::new(texts.len(), |i: int| texts[i]@)
}

/// What `serde_json::to_string` writes for a list of texts: a JSON array of
/// strings.
pub uninterp spec fn json_of_texts(texts: Seq<Seq<char>>) -> Seq<char>;

/// Writes a list of texts as JSON with `serde_json::to_string`. The writer
/// fails only where its sink or the values fail; here the sink is memory and
/// the values are texts, so there is always a result.
#[verifier::external_body]
pub(crate) fn texts_to_json(texts: &Vec<String>) -> (json: Option<String>)
    ensures
        json is Some,
        json->0@ == json_of_texts(texts_of(texts@)),
{
    serde_json::to_string(texts).ok()
}

/// The value of the first member of `members` whose key is `key`.
pub open spec fn member_of(members: Seq<JsonMember>, key: Seq<char>) -> Option<JsonValue>
    decreases members.len(),
{
    if members.len() == 0 {
        None
    } else if members[0].key@ == key {
        Some(members[0].value)
    } else {
        member_of(members.drop_first(), key)
    }
}

/// Looks `key` up among the members of an object.
pub fn find_member<'a>(members: &'a Vec<JsonMember>, key: &str) -> (found: Option<&'a JsonValue>)
    ensures
        found is Some == member_of(members@, key@) is Some,
        found is Some ==> *found->0 == member_of(members@, key@)->0,
{
    let mut i: usize = 0;
    assert(members@.skip(0) =~= members@);
    while i < members.len()
        invariant
            i <= members.len(),
            member_of(members@, key@) == member_of(members@.skip(i as int), key@),
        decreases members.len() - i,
    {
        if same_text(members[i].key.as_str(), key) {
            return Some(&members[i].value);
        }
        proof {
            assert(members@.skip(i as int).drop_first() =~= members@.skip(i as int + 1));
        }
        i += 1;
    }
    None
}

} // verus!
