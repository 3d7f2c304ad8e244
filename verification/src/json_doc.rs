use vstd::prelude::*;

use crate::paths::owned;
use crate::text::str_eq;

verus! {

#[verifier::external_type_specification]
#[verifier::external_body]
pub struct ExJsonValue(json::JsonValue);

/// A JSON document as plain values: a number by its sign, decimal mantissa
/// and decimal exponent; an object's entries in their stored order.
#[derive(Debug)]
pub enum JsonNode {
    Null,
    Bool(bool),
    Number { positive: bool, mantissa: u64, exponent: i16 },
    Str(String),
    Array(Vec<JsonNode>),
    Object(Vec<(String, JsonNode)>),
}

/// The document that the JSON library reads from a text, or `None` when it
/// refuses the text.
pub uninterp spec fn json_parse_of(text: Seq<char>) -> Option<JsonNode>;

/// A value of the JSON library (version 0.12) as plain values, one variant for
/// one: both kinds of string become `Str`, a number is given by the parts
/// `Number::as_parts` gives, objects and arrays keep their order.
#[verifier::external_body]
fn json_node_of(v: &json::JsonValue) -> (res: JsonNode) {
    match v {
        json::JsonValue::Null => JsonNode::Null,
        json::JsonValue::Short(s) => JsonNode::Str(s.as_str().to_string()),
        json::JsonValue::String(s) => JsonNode::Str(s.clone()),
        json::JsonValue::Number(n) => {
            let (positive, mantissa, exponent) = n.as_parts();
            JsonNode::Number { positive, mantissa, exponent }
        },
        json::JsonValue::Boolean(b) => JsonNode::Bool(*b),
        json::JsonValue::Object(o) => JsonNode::Object(o.iter().map(|(k, x)| (k.to_string(), json_node_of(x))).collect()),
        json::JsonValue::Array(a) => JsonNode::Array(a.iter().map(json_node_of).collect()),
    }
}

/// `json::parse` (version 0.12), its document converted by `json_node_of`.
/// Stated: the outcome is a function of the text alone. What the document is
/// for a given text, and the text of the error, are left unsaid.
#[verifier::external_body]
pub(crate) fn json_parse(text: &str) -> (res: Result<JsonNode, String>)
    ensures
        json_parse_of(text@) is Some ==> res is Ok && res->Ok_0 == json_parse_of(text@)->0,
        json_parse_of(text@) is None ==> res is Err,
{
    match json::parse(text) {
        Ok(v) => Ok(json_node_of(&v)),
        Err(e) => Err(e.to_string()),
    }
}

/// The value stored under a key among an object's entries, if any (the
/// library keeps one entry per key).
pub open spec fn entry_value(entries: Seq<(String, JsonNode)>, key: Seq<char>) -> Option<JsonNode>
    decreases entries.len(),
{
    if entries.len() == 0 {
        None
    } else if entries[0].0@ == key {
        Some(entries[0].1)
    } else {
        entry_value(entries.drop_first(), key)
    }
}

/// A node seen through an optional reference.
pub open spec fn opt_node(n: Option<&JsonNode>) -> Option<JsonNode> {
    match n {
        Some(r) => Some(*r),
        None => None,
    }
}

/// The member of an object under a key; nothing for a missing key or for a
/// node that is no object.
pub open spec fn spec_field(n: Option<JsonNode>, key: Seq<char>) -> Option<JsonNode> {
    match n {
        Some(JsonNode::Object(entries)) => entry_value(entries@, key),
        _ => None,
    }
}

/// The element of an array at a position; nothing out of range or for a node
/// that is no array.
pub open spec fn spec_at(n: Option<JsonNode>, i: int) -> Option<JsonNode> {
    match n {
        Some(JsonNode::Array(v)) => if 0 <= i < v@.len() {
            Some(v@[i])
        } else {
            None
        },
        _ => None,
    }
}

/// The elements of an array; none for a node that is no array.
pub open spec fn spec_elements(n: Option<JsonNode>) -> Seq<JsonNode> {
    match n {
        Some(JsonNode::Array(v)) => v@,
        _ => Seq::empty(),
    }
}

/// The text of a string node.
pub open spec fn spec_as_str(n: Option<JsonNode>) -> Option<Seq<char>> {
    match n {
        Some(JsonNode::Str(s)) => Some(s@),
        _ => None,
    }
}

/// The value of a boolean node.
pub open spec fn spec_as_bool(n: Option<JsonNode>) -> Option<bool> {
    match n {
        Some(JsonNode::Bool(b)) => Some(b),
        _ => None,
    }
}

/// Whether a node is a number.
pub open spec fn spec_is_number(n: Option<JsonNode>) -> bool {
    n matches Some(JsonNode::Number { .. })
}

/// A number node read as a `u64`, as the library reads it: only a
/// non-negative number without decimal exponent.
pub open spec fn spec_as_u64(n: Option<JsonNode>) -> Option<u64> {
    match n {
        Some(JsonNode::Number { positive, mantissa, exponent }) => if positive && exponent == 0 {
            Some(mantissa)
        } else {
            None
        },
        _ => None,
    }
}

/// A number node read as a `u32`: as a `u64` that fits.
pub open spec fn spec_as_u32(n: Option<JsonNode>) -> Option<u32> {
    match spec_as_u64(n) {
        Some(v) => if v <= u32::MAX {
            Some(v as u32)
        } else {
            None
        },
        None => None,
    }
}

/// A number node read as a `usize`: as a `u64` that fits.
pub open spec fn spec_as_usize(n: Option<JsonNode>) -> Option<usize> {
    match spec_as_u64(n) {
        Some(v) => if v <= usize::MAX {
            Some(v as usize)
        } else {
            None
        },
        None => None,
    }
}

/// The member of an object under a key.
pub fn field<'a>(n: Option<&'a JsonNode>, key: &str) -> (res: Option<&'a JsonNode>)
    ensures
        opt_node(res) == spec_field(opt_node(n), key@),
{
    match n {
        Some(JsonNode::Object(entries)) => {
            let mut i: usize = 0;
            proof {
                assert(entries@.skip(0) =~= entries@);
            }
            while i < entries.len()
                invariant
                    i <= entries@.len(),
                    spec_field(opt_node(n), key@) == entry_value(entries@, key@),
                    entry_value(entries@, key@) == entry_value(entries@.skip(i as int), key@),
                decreases entries@.len() - i,
            {
                if str_eq(entries[i].0.as_str(), key) {
                    proof {
                        assert(entries@.skip(i as int)[0] == entries@[i as int]);
                    }
                    return Some(&entries[i].1);
                }
                proof {
                    assert(entries@.skip(i as int).drop_first() =~= entries@.skip(i + 1));
                }
                i = i + 1;
            }
            None
        },
        _ => None,
    }
}

/// The element of an array at a position.
pub fn at<'a>(n: Option<&'a JsonNode>, i: usize) -> (res: Option<&'a JsonNode>)
    ensures
        opt_node(res) == spec_at(opt_node(n), i as int),
{
    match n {
        Some(JsonNode::Array(v)) => if i < v.len() {
            Some(&v[i])
        } else {
            None
        },
        _ => None,
    }
}

/// The text of a string node.
pub fn as_str<'a>(n: Option<&'a JsonNode>) -> (res: Option<&'a str>)
    ensures
        match res {
            Some(s) => spec_as_str(opt_node(n)) == Some(s@),
            None => spec_as_str(opt_node(n)) is None,
        },
{
    match n {
        Some(JsonNode::Str(s)) => Some(s.as_str()),
        _ => None,
    }
}

/// The value of a boolean node.
pub fn as_bool(n: Option<&JsonNode>) -> (res: Option<bool>)
    ensures
        res == spec_as_bool(opt_node(n)),
{
    match n {
        Some(JsonNode::Bool(b)) => Some(*b),
        _ => None,
    }
}

/// Whether a node is a number.
pub fn is_number(n: Option<&JsonNode>) -> (res: bool)
    ensures
        res == spec_is_number(opt_node(n)),
{
    match n {
        Some(JsonNode::Number { .. }) => true,
        _ => false,
    }
}

/// A number node read as a `u64`.
pub fn as_u64(n: Option<&JsonNode>) -> (res: Option<u64>)
    ensures
        res == spec_as_u64(opt_node(n)),
{
    match n {
        Some(JsonNode::Number { positive, mantissa, exponent }) => if *positive && *exponent == 0 {
            Some(*mantissa)
        } else {
            None
        },
        _ => None,
    }
}

/// A number node read as a `u32`.
pub fn as_u32(n: Option<&JsonNode>) -> (res: Option<u32>)
    ensures
        res == spec_as_u32(opt_node(n)),
{
    match as_u64(n) {
        Some(v) => if v <= 0xffff_ffff {
            Some(v as u32)
        } else {
            None
        },
        None => None,
    }
}

/// A number node read as a `usize`.
pub fn as_usize(n: Option<&JsonNode>) -> (res: Option<usize>)
    ensures
        res == spec_as_usize(opt_node(n)),
{
    match as_u64(n) {
        Some(v) => if v <= usize::MAX as u64 {
            Some(v as usize)
        } else {
            None
        },
        None => None,
    }
}

/// The text of a string node, owned.
pub fn as_string(n: Option<&JsonNode>) -> (res: Option<String>)
    ensures
        match res {
            Some(s) => spec_as_str(opt_node(n)) == Some(s@),
            None => spec_as_str(opt_node(n)) is None,
        },
{
    match as_str(n) {
        Some(s) => Some(owned(s)),
        None => None,
    }
}

} // verus!
