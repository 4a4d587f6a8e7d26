//! JSON documents as plain values, and the lookups that the response
//! parsers are made of.

use crate::text::str_eq;
use vstd::prelude::*;
use vstd::string::*;

verus! {

/// A JSON document. A number is kept as the text that stands for it.
#[derive(Debug)]
pub enum Json {
    Null,
    Bool(bool),
    Number(String),
    Text(String),
    Array(Vec<Json>),
    /// The members of an object. No name occurs twice.
    Object(Vec<(String, Json)>),
}

#[verifier::external_type_specification]
#[verifier::external_body]
pub struct ExJsonValue(serde_json::Value);

#[verifier::external_type_specification]
#[verifier::external_body]
pub struct ExJsonError(serde_json::Error);

/// The document that `text` stands for, or `None` where `text` is no JSON.
pub uninterp spec fn parsed_json(text: Seq<char>) -> Option<Json>;

/// What a `serde_json::Value` holds, as a `Json`.
pub uninterp spec fn json_contents(value: serde_json::Value) -> Json;

/// `serde_json::from_str` at `serde_json::Value`: parses `text` as one
/// JSON document. The grammar is not restated here: what the value holds
/// is known only as `parsed_json(text)`, and a failure means that `text`
/// is no JSON.
#[verifier::external_body]
fn json_value_from_str(text: &str) -> (r: Result<serde_json::Value, serde_json::Error>)
    ensures
        match r {
            Ok(value) => parsed_json(text@) == Some(json_contents(value)),
            Err(_) => parsed_json(text@) is None,
        },
{
    serde_json::from_str(text)
}

/// Copies a `serde_json::Value` into a `Json`, variant by variant: a
/// number as `Number::to_string` renders it, the members of an object in
/// the order in which the map hands them out.
#[verifier::external_body]
fn json_from_value(value: &serde_json::Value) -> (doc: Json)
    ensures
        doc == json_contents(*value),
{
    match value {
        serde_json::Value::Null => Json::Null,
        serde_json::Value::Bool(b) => Json::Bool(*b),
        serde_json::Value::Number(n) => Json::Number(n.to_string()),
        serde_json::Value::String(s) => Json::Text(s.clone()),
        serde_json::Value::Array(items) => Json::Array(items.iter().map(json_from_value).collect()),
        serde_json::Value::Object(members) => Json::Object(
            members.iter().map(|(k, v)| (k.clone(), json_from_value(v))).collect(),
        ),
    }
}

/// Why a response could not be read.
#[derive(Debug, PartialEq, Eq, Structural, Clone, Copy)]
pub enum JsonError {
    /// The text is no JSON document.
    Syntax,
}

/// Parses `text` as one JSON document.
pub fn parse_json(text: &str) -> (r: Result<Json, JsonError>)
    ensures
        match r {
            Ok(doc) => parsed_json(text@) == Some(doc),
            Err(e) => e == JsonError::Syntax && parsed_json(text@) is None,
        },
{
    match json_value_from_str(text) {
        Ok(value) => Ok(json_from_value(&value)),
        Err(_) => Err(JsonError::Syntax),
    }
}


/// The value of the first member of `members` that is called `name`.
pub open spec fn find_member(members: Seq<(String, Json)>, name: Seq<char>) -> Option<Json>
    decreases members.len(),
{
    if members.len() == 0 {
        None
    } else if members[0].0@ == name {
        Some(members[0].1)
    } else {
        find_member(members.drop_first(), name)
    }
}

impl Json {
    /// The member called `name`, where this is an object that has one.
    pub open spec fn member(self, name: Seq<char>) -> Option<Json> {
        match self {
            Json::Object(members) => find_member(members@, name),
            _ => None,
        }
    }

    /// The element at `index`, where this is an array that is long enough.
    pub open spec fn element(self, index: int) -> Option<Json> {
        match self {
            Json::Array(items) => if 0 <= index < items@.len() {
                Some(items@[index])
            } else {
                None
            },
            _ => None,
        }
    }

    /// The text, where this is a string.
    pub open spec fn text(self) -> Option<Seq<char>> {
        match self {
            Json::Text(t) => Some(t@),
            _ => None,
        }
    }

    /// The elements, where this is an array.
    pub open spec fn items(self) -> Option<Seq<Json>> {
        match self {
            Json::Array(items) => Some(items@),
            _ => None,
        }
    }

    /// Looks up the member called `name`.
    pub fn get(&self, name: &str) -> (r: Option<&Json>)
        ensures
            match r {
                Some(found) => self.member(name@) == Some(*found),
                None => self.member(name@) is None,
            },
    {
        match self {
            Json::Object(members) => {
                let mut i: usize = 0;
                assert(members@.skip(0) =~= members@);
                while i < members.len()
                    invariant
                        0 <= i <= members.len(),
                        self.member(name@) == find_member(members@.skip(i as int), name@),
                    decreases members.len() - i,
                {
                    let ghost rest = members@.skip(i as int);
                    assert(rest[0] == members@[i as int]);
                    assert(rest.drop_first() =~= members@.skip(i + 1));
                    if str_eq(members[i].0.as_str(), name) {
                        assert(find_member(rest, name@) == Some(rest[0].1));
                        return Some(&members[i].1);
                    }
                    assert(find_member(rest, name@) == find_member(rest.drop_first(), name@));
                    i = i + 1;
                }
                assert(members@.skip(i as int).len() == 0);
                None
            },
            _ => None,
        }
    }

    /// Looks up the element at `index`.
    pub fn at(&self, index: usize) -> (r: Option<&Json>)
        ensures
            match r {
                Some(found) => self.element(index as int) == Some(*found),
                None => self.element(index as int) is None,
            },
    {
        match self {
            Json::Array(items) => if index < items.len() {
                Some(&items[index])
            } else {
                None
            },
            _ => None,
        }
    }

    /// The text of a string.
    pub fn as_str(&self) -> (r: Option<&str>)
        ensures
            match r {
                Some(t) => self.text() == Some(t@),
                None => self.text() is None,
            },
    {
        match self {
            Json::Text(t) => Some(t.as_str()),
            _ => None,
        }
    }

    /// The elements of an array.
    pub fn as_array(&self) -> (r: Option<&Vec<Json>>)
        ensures
            match r {
                Some(v) => self.items() == Some(v@),
                None => self.items() is None,
            },
    {
        match self {
            Json::Array(items) => Some(items),
            _ => None,
        }
    }
}

} // verus!
