//! A plain JSON value tree, the shape in which the library reads the Hebrew morphology
//! pack, and parsing JSON text into it with `serde_json`.

use vstd::prelude::*;

verus! {

/// One JSON value. Numbers keep the text that the document wrote for them.
#[derive(Debug, PartialEq, Eq)]
pub enum JsonValue {
    Null,
    Bool(bool),
    Number(String),
    Str(String),
    Array(Vec<JsonValue>),
    /// Members in the order the tree was built with; a tree parsed by `parse_json` has
    /// them sorted by key, one per key.
    Object(Vec<(String, JsonValue)>),
}

/// The first member of `members` at or after `i` whose key is `key`.
pub open spec fn first_member(members: Seq<(String, JsonValue)>, key: Seq<char>, i: int) -> Option<
    int,
>
    decreases members.len() - i,
{
    if i < 0 || i >= members.len() {
        None
    } else if members[i].0@ == key {
        Some(i)
    } else {
        first_member(members, key, i + 1)
    }
}

impl JsonValue {
    /// The member `key` of an object (the first one with that key in the member list).
    pub fn get(&self, key: &str) -> (r: Option<&JsonValue>)
        ensures
            match *self {
                JsonValue::Object(members) => match first_member(members@, key@, 0) {
                    Some(i) => r == Some(&members@[i].1),
                    None => r is None,
                },
                _ => r is None,
            },
    {
        match self {
            JsonValue::Object(members) => {
                let mut i: usize = 0;
                while i < members.len()
                    invariant
                        i <= members@.len(),
                        *self == JsonValue::Object(*members),
                        first_member(members@, key@, 0) == first_member(members@, key@, i as int),
                    decreases members@.len() - i,
                {
                    if crate::text::str_eq(members[i].0.as_str(), key) {
                        assert(first_member(members@, key@, i as int) == Some(i as int));
                        return Some(&members[i].1);
                    }
                    i = i + 1;
                }
                None
            },
            _ => None,
        }
    }
}

/// `serde_json::Value`, the tree that `serde_json` parses into.
#[verifier::external_type_specification]
#[verifier::external_body]
pub struct ExSerdeValue(serde_json::Value);

/// What parsing `text` as one JSON document with `serde_json` gives: its tree (numbers as
/// `serde_json` prints them, object members sorted by key, the last of repeated keys kept),
/// or the message of the parse error.
pub uninterp spec fn json_parse(text: Seq<char>) -> Result<JsonValue, Seq<char>>;

/// `serde_json::Value` as the library's tree, variant for variant (numbers by their
/// `Display`). Trusted, with nothing claimed: it only converts.
#[verifier::external_body]
fn tree_of(v: serde_json::Value) -> JsonValue {
    match v {
        serde_json::Value::Null => JsonValue::Null,
        serde_json::Value::Bool(b) => JsonValue::Bool(b),
        serde_json::Value::Number(n) => JsonValue::Number(n.to_string()),
        serde_json::Value::String(s) => JsonValue::Str(s),
        serde_json::Value::Array(a) => JsonValue::Array(a.into_iter().map(tree_of).collect()),
        serde_json::Value::Object(m) => {
            JsonValue::Object(m.into_iter().map(|(k, x)| (k, tree_of(x))).collect())
        },
    }
}

/// `serde_json::from_str::<serde_json::Value>` on `text`, converted to the library's tree.
/// The contract claims only that the outcome (the tree, or the error's message) is a
/// function of the text, named `json_parse`.
#[verifier::external_body]
pub fn parse_json(text: &str) -> (r: Result<JsonValue, String>)
    ensures
        match r {
            Ok(v) => json_parse(text@) == Ok::<JsonValue, Seq<char>>(v),
            Err(e) => json_parse(text@) == Err::<JsonValue, Seq<char>>(e@),
        },
{
    match serde_json::from_str::<serde_json::Value>(text) {
        Ok(v) => Ok(tree_of(v)),
        Err(e) => Err(e.to_string()),
    }
}

} // verus!
