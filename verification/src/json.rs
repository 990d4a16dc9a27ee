//! JSON documents as plain values.
//!
//! The text is read by `serde_json`; what it yields is copied into [`Json`],
//! a tree of this crate's own, so that the rules that walk an answer of the
//! platform are stated and proved over values that hold nothing hidden.

use vstd::prelude::*;
use crate::error::PlatformError;
use crate::text::same_text;

verus! {

/// `serde_json::Value`, carried through as it is: nothing inside it is
/// visible here.
#[verifier::external_type_specification]
#[verifier::external_body]
pub struct ExJsonValue(serde_json::Value);

/// `serde_json::Error`, carried through as it is.
#[verifier::external_type_specification]
#[verifier::external_body]
pub struct ExJsonError(serde_json::Error);

/// A JSON number, as far as a 64-bit integer holds it: a number with a
/// fraction or an exponent, or out of range, has neither reading.
#[derive(Clone, Copy, Debug, PartialEq, Eq, Structural)]
pub struct JsonNumber {
    pub signed: Option<i64>,
    pub unsigned: Option<u64>,
}

/// One member of a JSON object.
#[derive(Debug, PartialEq)]
pub struct JsonMember {
    pub key: String,
    pub value: Json,
}

/// A JSON document.
#[derive(Debug, PartialEq)]
pub enum Json {
    Null,
    Bool(bool),
    Number(JsonNumber),
    Text(String),
    Array(Vec<Json>),
    Object(Vec<JsonMember>),
}

/// The value of the first member called `key` among `members` from position
/// `from` on.
pub open spec fn first_member(members: Seq<JsonMember>, key: Seq<char>, from: int) -> Option<Json>
    decreases members.len() - from,
{
    if from < 0 || from >= members.len() {
        None
    } else if members[from].key@ == key {
        Some(members[from].value)
    } else {
        first_member(members, key, from + 1)
    }
}

impl Json {
    /// The member called `key`, if this is an object that has one.
    pub open spec fn member(&self, key: Seq<char>) -> Option<Json> {
        match self {
            Json::Object(members) => first_member(members@, key, 0),
            _ => None,
        }
    }

    /// The characters, if this is a string.
    pub open spec fn text(&self) -> Option<Seq<char>> {
        match self {
            Json::Text(s) => Some(s@),
            _ => None,
        }
    }

    /// The value, if this is a number that a signed 64-bit integer holds.
    pub open spec fn signed(&self) -> Option<i64> {
        match self {
            Json::Number(n) => n.signed,
            _ => None,
        }
    }

    /// The value, if this is a number that an unsigned 64-bit integer holds.
    pub open spec fn unsigned(&self) -> Option<u64> {
        match self {
            Json::Number(n) => n.unsigned,
            _ => None,
        }
    }

    /// The member called `key`: `None` where this is no object or has no
    /// such member.
    pub fn get(&self, key: &str) -> (found: Option<&Json>)
        ensures
            match found {
                Some(value) => self.member(key@) == Some(*value),
                None => self.member(key@) is None,
            },
    {
        match self {
            Json::Object(members) => {
                let mut i: usize = 0;
                while i < members.len()
                    invariant
                        i <= members.len(),
                        self.member(key@) == first_member(members@, key@, 0),
                        first_member(members@, key@, 0) == first_member(members@, key@, i as int),
                    decreases members.len() - i,
                {
                    if same_text(members[i].key.as_str(), key) {
                        assert(first_member(members@, key@, i as int) == Some(
                            members@[i as int].value,
                        ));
                        return Some(&members[i].value);
                    }
                    i += 1;
                }
                None
            },
            _ => None,
        }
    }

    /// The characters of a string; `None` for anything else.
    pub fn as_str(&self) -> (found: Option<&str>)
        ensures
            match found {
                Some(s) => self.text() == Some(s@),
                None => self.text() is None,
            },
    {
        match self {
            Json::Text(s) => Some(s.as_str()),
            _ => None,
        }
    }

    /// The value of a number that fits a signed 64-bit integer; `None` for
    /// anything else.
    pub fn as_i64(&self) -> (found: Option<i64>)
        ensures
            found == self.signed(),
    {
        match self {
            Json::Number(n) => n.signed,
            _ => None,
        }
    }

    /// The value of a number that fits an unsigned 64-bit integer; `None`
    /// for anything else.
    pub fn as_u64(&self) -> (found: Option<u64>)
        ensures
            found == self.unsigned(),
    {
        match self {
            Json::Number(n) => n.unsigned,
            _ => None,
        }
    }

    /// Reads a JSON text. A text that is no JSON document is answered with
    /// [`PlatformError::Malformed`].
    pub fn parse(text: &str) -> (r: Result<Json, PlatformError>)
        ensures
            r == match parsed_json(text@) {
                Some(doc) => Ok::<Json, PlatformError>(doc),
                None => Err(PlatformError::Malformed),
            },
    {
        match read_value(text) {
            Ok(value) => Ok(json_of(value)),
            Err(_) => Err(PlatformError::Malformed),
        }
    }
}

/// The document that a text stands for, `None` where it is no JSON document.
pub uninterp spec fn parsed_json(text: Seq<char>) -> Option<Json>;

/// What a value of `serde_json` holds, as a tree of this crate.
pub uninterp spec fn json_content(value: serde_json::Value) -> Json;

/// `serde_json::from_str` at the type `serde_json::Value`: the text is either
/// refused or read into a value. The reading depends on the text alone, so it
/// has a name: `parsed_json`.
#[verifier::external_body]
fn read_value(text: &str) -> (r: Result<serde_json::Value, serde_json::Error>)
    ensures
        match r {
            Ok(value) => parsed_json(text@) == Some(json_content(value)),
            Err(_) => parsed_json(text@) is None,
        },
{
    serde_json::from_str::<serde_json::Value>(text)
}

/// Copies a `serde_json::Value` into a [`Json`], variant by variant. A number
/// is kept by what `Number::as_i64` and `Number::as_u64` say of it; the
/// members of an object come in the order the map hands them out.
#[verifier::external_body]
fn json_of(value: serde_json::Value) -> (doc: Json)
    ensures
        doc == json_content(value),
{
    match value {
        serde_json::Value::Null => Json::Null,
        serde_json::Value::Bool(b) => Json::Bool(b),
        serde_json::Value::Number(n) => Json::Number(
            JsonNumber { signed: n.as_i64(), unsigned: n.as_u64() },
        ),
        serde_json::Value::String(s) => Json::Text(s),
        serde_json::Value::Array(items) => Json::Array(items.into_iter().map(json_of).collect()),
        serde_json::Value::Object(members) => Json::Object(
            members.into_iter().map(|(key, v)| JsonMember { key, value: json_of(v) }).collect(),
        ),
    }
}

} // verus!
