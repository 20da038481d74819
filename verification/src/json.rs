//! A plain model of a parsed JSON document.  Remote documents arrive as
//! text; a trusted parser turns the text into this model once, and every
//! rule that reads a document is then stated and verified over the model.
//! An object keeps its fields in the order the parser delivered them and
//! a lookup takes the first field with a matching name.

use vstd::prelude::*;

verus! {

/// One JSON value.  A number that fits in neither `u64` nor `i64` is kept
/// only as the marker `OtherNum`: no document field this library reads
/// ever holds such a number, and a decoder treats it as a shape mismatch.
#[derive(Debug)]
pub enum JsonValue {
    Null,
    Bool(bool),
    UInt(u64),
    Int(i64),
    OtherNum,
    Str(String),
    Arr(Vec<JsonValue>),
    Obj(Vec<(String, JsonValue)>),
}

/// First-match lookup of `key` in an object's field list.
pub open spec fn spec_obj_lookup(
    pairs: Seq<(String, JsonValue)>,
    key: Seq<char>,
) -> Option<JsonValue>
    decreases pairs.len(),
{
    if pairs.len() == 0 {
        None
    } else if pairs[0].0@ == key {
        Some(pairs[0].1)
    } else {
        spec_obj_lookup(pairs.skip(1), key)
    }
}

/// Lookup of `key` in `v`: the first field named `key` when `v` is an
/// object with such a field, nothing otherwise.
pub open spec fn spec_get(v: JsonValue, key: Seq<char>) -> Option<JsonValue> {
    match v {
        JsonValue::Obj(pairs) => spec_obj_lookup(pairs@, key),
        _ => None,
    }
}

/// The text of the string field `key` of `v`, if `v` has one.
pub open spec fn spec_str_field(v: JsonValue, key: Seq<char>) -> Option<Seq<char>> {
    match spec_get(v, key) {
        Some(JsonValue::Str(s)) => Some(s@),
        _ => None,
    }
}

/// The value of the unsigned integer field `key` of `v`, if `v` has one.
pub open spec fn spec_u64_field(v: JsonValue, key: Seq<char>) -> Option<u64> {
    match spec_get(v, key) {
        Some(JsonValue::UInt(u)) => Some(u),
        _ => None,
    }
}

impl JsonValue {
    /// First-match lookup of the field `key`: a reference to its value
    /// when `self` is an object that has the field, nothing otherwise.
    pub fn get<'a>(&'a self, key: &str) -> (r: Option<&'a JsonValue>)
        ensures
            match r {
                Some(v) => spec_get(*self, key@) == Some(*v),
                None => spec_get(*self, key@) is None,
            },
    {
        match self {
            JsonValue::Obj(pairs) => {
                let key_owned: String = key.to_owned();
                let n = pairs.len();
                let mut j: usize = 0;
                proof {
                    assert(pairs@.skip(0) =~= pairs@);
                }
                while j < n
                    invariant
                        n == pairs@.len(),
                        j <= n,
                        key_owned@ == key@,
                        spec_get(*self, key@) == spec_obj_lookup(pairs@, key@),
                        spec_obj_lookup(pairs@, key@) == spec_obj_lookup(
                            pairs@.skip(j as int),
                            key@,
                        ),
                    decreases n - j,
                {
                    if pairs[j].0 == key_owned {
                        proof {
                            assert(pairs@.skip(j as int)[0] == pairs@[j as int]);
                        }
                        return Some(&pairs[j].1);
                    }
                    proof {
                        assert(pairs@.skip(j as int).skip(1) =~= pairs@.skip(j as int + 1));
                    }
                    j = j + 1;
                }
                None
            },
            _ => None,
        }
    }

    /// The text of the string field `key`, if `self` has one.
    pub fn get_str<'a>(&'a self, key: &str) -> (r: Option<&'a String>)
        ensures
            match r {
                Some(s) => spec_str_field(*self, key@) == Some(s@),
                None => spec_str_field(*self, key@) is None,
            },
    {
        match self.get(key) {
            Some(JsonValue::Str(s)) => Some(s),
            _ => None,
        }
    }

    /// The value of the unsigned integer field `key`, if `self` has one.
    pub fn get_u64(&self, key: &str) -> (r: Option<u64>)
        ensures
            r == spec_u64_field(*self, key@),
    {
        match self.get(key) {
            Some(JsonValue::UInt(u)) => Some(*u),
            _ => None,
        }
    }
}

/// The parsed-document type of the serde_json crate, opaque here: a value
/// of it only passes from the parser to the node-by-node rebuild below.
#[verifier::external_type_specification]
#[verifier::external_body]
pub struct ExValue(serde_json::Value);

/// What parsing JSON text yields: the model of the document the text
/// holds, or nothing when the text is not a JSON document.  The result
/// depends on the text alone.
pub uninterp spec fn spec_parsed_json(s: Seq<char>) -> Option<JsonValue>;

/// Relies on `serde_json::from_str::<serde_json::Value>` to parse JSON
/// text; the parsed tree is rebuilt one node at a time as a `JsonValue`,
/// telling the outside enum's variants apart and moving their fields.
/// Parser and rebuild are both deterministic in the text, so what the
/// pair yields is the named result `spec_parsed_json`; nothing is
/// returned exactly when the text is not a JSON document.
#[verifier::external_body]
pub(crate) fn parse_json(s: &str) -> (r: Option<JsonValue>)
    ensures
        r == spec_parsed_json(s@),
{
    match serde_json::from_str::<serde_json::Value>(s) {
        Ok(v) => Some(json_to_model(v)),
        Err(_) => None,
    }
}

/// Relies on `serde_json::Value` and `serde_json::Number::{as_u64, as_i64}`:
/// rebuilds one parsed node as the matching `JsonValue` variant, moving
/// fields; the two accessors are the outside crate's only way to tell a
/// 64-bit integer from any other number.
#[verifier::external_body]
fn json_to_model(v: serde_json::Value) -> JsonValue {
    match v {
        serde_json::Value::Null => JsonValue::Null,
        serde_json::Value::Bool(b) => JsonValue::Bool(b),
        serde_json::Value::Number(n) => match (n.as_u64(), n.as_i64()) {
            (Some(u), _) => JsonValue::UInt(u),
            (None, Some(i)) => JsonValue::Int(i),
            _ => JsonValue::OtherNum,
        },
        serde_json::Value::String(s) => JsonValue::Str(s),
        serde_json::Value::Array(a) => JsonValue::Arr(a.into_iter().map(json_to_model).collect()),
        serde_json::Value::Object(m) => JsonValue::Obj(
            m.into_iter().map(|(k, x)| (k, json_to_model(x))).collect(),
        ),
    }
}

} // verus!
