use vstd::prelude::*;

use crate::text::str_eq;

verus! {

/// A JSON document as the library reads it.  `Other` stands for a JSON
/// number that is not an unsigned 64-bit integer (negative or fractional);
/// no field the wire format reads may hold one.
#[derive(Debug)]
pub enum JsonValue {
    Null,
    Bool(bool),
    UInt(u64),
    Str(String),
    Arr(Vec<JsonValue>),
    Obj(Vec<(String, JsonValue)>),
    Other,
}

#[verifier::external_type_specification]
#[verifier::external_body]
pub struct ExValue(serde_json::Value);

/// What a response body parses to: `None` when the text is not JSON,
/// otherwise the document as a `JsonValue` tree.
pub uninterp spec fn json_of(s: Seq<char>) -> Option<JsonValue>;

/// The `JsonValue` tree of a parsed `serde_json::Value` document.
pub uninterp spec fn json_tree_of(v: serde_json::Value) -> JsonValue;

/// Relies on `serde_json::from_str::<serde_json::Value>`: whether a body
/// parses as JSON, and what document it parses to, depend on the text alone.
#[verifier::external_body]
pub(crate) fn parse_value(s: &str) -> (r: Option<serde_json::Value>)
    ensures
        match r {
            Some(v) => json_of(s@) == Some(json_tree_of(v)),
            None => json_of(s@) is None,
        },
{
    serde_json::from_str::<serde_json::Value>(s).ok()
}

/// Relies on `serde_json::Value` and `serde_json::Number::as_u64`: converts a
/// parsed document into the library's tree, variant by variant; the result
/// depends on the document alone.
#[verifier::external_body]
pub(crate) fn value_tree(v: &serde_json::Value) -> (r: JsonValue)
    ensures
        r == json_tree_of(*v),
{
    match v {
        serde_json::Value::Null => JsonValue::Null,
        serde_json::Value::Bool(b) => JsonValue::Bool(*b),
        serde_json::Value::Number(n) => n.as_u64().map_or(JsonValue::Other, JsonValue::UInt),
        serde_json::Value::String(s) => JsonValue::Str(s.clone()),
        serde_json::Value::Array(a) => JsonValue::Arr(a.iter().map(value_tree).collect()),
        serde_json::Value::Object(m) => JsonValue::Obj(
            m.iter().map(|(k, e)| (k.clone(), value_tree(e))).collect(),
        ),
    }
}

/// The member of `fields` named `name`, if any.
pub open spec fn spec_lookup(fields: Seq<(String, JsonValue)>, name: Seq<char>) -> Option<
    JsonValue,
>
    decreases fields.len(),
{
    if fields.len() == 0 {
        None
    } else if fields[0].0@ == name {
        Some(fields[0].1)
    } else {
        spec_lookup(fields.drop_first(), name)
    }
}

/// Looks a member up by name in a decoded JSON object.
pub(crate) fn lookup_field<'a>(fields: &'a Vec<(String, JsonValue)>, name: &str) -> (r: Option<
    &'a JsonValue,
>)
    ensures
        match r {
            Some(v) => spec_lookup(fields@, name@) == Some(*v),
            None => spec_lookup(fields@, name@) is None,
        },
{
    let n = fields.len();
    proof {
        assert(fields@.skip(0) =~= fields@);
    }
    for i in 0..n
        invariant
            n == fields@.len(),
            spec_lookup(fields@, name@) == spec_lookup(fields@.skip(i as int), name@),
    {
        proof {
            assert(fields@.skip(i as int)[0] == fields@[i as int]);
            assert(fields@.skip(i as int).drop_first() =~= fields@.skip(i + 1));
        }
        if str_eq(fields[i].0.as_str(), name) {
            return Some(&fields[i].1);
        }
    }
    None
}

} // verus!
