//! Documents in JSON as plain values, and text read as such a document.

use vstd::prelude::*;
use vstd::string::*;
use crate::text::same_text;

verus! {

/// Makes `serde_json::Value` known as a type whose contents are not looked
/// into.
#[verifier::external_type_specification]
#[verifier::external_body]
pub struct ExValue(serde_json::Value);

/// Makes `serde_json::Error` known as a type whose contents are not looked
/// into.
#[verifier::external_type_specification]
#[verifier::external_body]
pub struct ExJsonError(serde_json::Error);

/// A value of a JSON document. Of a number only what it is as a signed
/// 64-bit integer is kept, and that it is none if it is a fraction or too
/// large. The members of an object that was read from a text have distinct
/// names.
#[derive(Debug, PartialEq, Eq)]
pub enum Json {
    Null,
    Bool(bool),
    Number(Option<i64>),
    Text(String),
    Array(Vec<Json>),
    Object(Vec<(String, Json)>),
}

/// The document that a text holds by the grammar of JSON, as
/// `serde_json::from_str` reads it; none if the text is no document.
pub uninterp spec fn json_document(text: Seq<char>) -> Option<Json>;

/// What a value of `serde_json` holds.
pub uninterp spec fn json_content(value: serde_json::Value) -> Json;

/// `serde_json::from_str` for a value of any shape: the text is read as
/// one JSON document, which depends on the text alone; a text that is none is
/// an error.
#[verifier::external_body]
fn parse_value(text: &str) -> (r: Result<serde_json::Value, serde_json::Error>)
    ensures
        match r {
            Ok(value) => json_document(text@) == Some(json_content(value)),
            Err(_) => json_document(text@) is None,
        },
{
    serde_json::from_str::<serde_json::Value>(text)
}

/// Takes a value of `serde_json` apart, variant by variant, into a value of
/// this library; a number by `Number::as_i64`.
#[verifier::external_body]
fn json_from_value(value: serde_json::Value) -> (r: Json)
    ensures
        r == json_content(value),
{
    match value {
        serde_json::Value::Null => Json::Null,
        serde_json::Value::Bool(b) => Json::Bool(b),
        serde_json::Value::Number(n) => Json::Number(n.as_i64()),
        serde_json::Value::String(s) => Json::Text(s),
        serde_json::Value::Array(a) => Json::Array(a.into_iter().map(json_from_value).collect()),
        serde_json::Value::Object(o) => Json::Object(
            o.into_iter().map(|(k, v)| (k, json_from_value(v))).collect(),
        ),
    }
}

/// The message of an error of `serde_json`, by its `Display`.
#[verifier::external_body]
fn json_error_message(error: &serde_json::Error) -> (r: String) {
    format!("{}", error)
}

/// Why a text could not be read as a document.
#[derive(Debug, PartialEq, Eq)]
pub struct JsonFault {
    pub message: String,
}

/// Reads a text as one JSON document.
pub fn parse_json(text: &str) -> (r: Result<Json, JsonFault>)
    ensures
        match r {
            Ok(document) => json_document(text@) == Some(document),
            Err(_) => json_document(text@) is None,
        },
{
    match parse_value(text) {
        Ok(value) => Ok(json_from_value(value)),
        Err(error) => Err(JsonFault { message: json_error_message(&error) }),
    }
}

/// The member of the given name among the members of an object: the
/// first that bears it.
pub open spec fn member_among(members: Seq<(String, Json)>, name: Seq<char>) -> Option<Json>
    decreases members.len(),
{
    if members.len() == 0 {
        None
    } else if members[0].0@ == name {
        Some(members[0].1)
    } else {
        member_among(members.drop_first(), name)
    }
}

impl Json {
    /// The member of the given name, if this is an object that has one.
    pub open spec fn member_spec(self, name: Seq<char>) -> Option<Json> {
        match self {
            Json::Object(members) => member_among(members@, name),
            _ => None,
        }
    }

    /// The text, if this is a text.
    pub open spec fn text_spec(self) -> Option<Seq<char>> {
        match self {
            Json::Text(s) => Some(s@),
            _ => None,
        }
    }

    /// The number, if this is a number that is a signed 64-bit integer.
    pub open spec fn integer_spec(self) -> Option<i64> {
        match self {
            Json::Number(n) => n,
            _ => None,
        }
    }

    /// The flag, if this is a flag.
    pub open spec fn flag_spec(self) -> Option<bool> {
        match self {
            Json::Bool(b) => Some(b),
            _ => None,
        }
    }

    /// The items, if this is an array.
    pub open spec fn items_spec(self) -> Option<Seq<Json>> {
        match self {
            Json::Array(items) => Some(items@),
            _ => None,
        }
    }

    /// The text of the member of the given name, if this is an object
    /// that has one and it is a text.
    pub open spec fn member_text_spec(self, name: Seq<char>) -> Option<Seq<char>> {
        match self.member_spec(name) {
            Some(member) => member.text_spec(),
            None => None,
        }
    }

    /// Looks a member up by its name.
    pub fn member(&self, name: &str) -> (r: Option<&Json>)
        ensures
            match r {
                Some(member) => self.member_spec(name@) == Some(*member),
                None => self.member_spec(name@) is None,
            },
    {
        match self {
            Json::Object(members) => {
                let mut i: usize = 0;
                assert(members@.subrange(0, members@.len() as int) =~= members@);
                while i < members.len()
                    invariant
                        i <= members.len(),
                        self == Json::Object(*members),
                        member_among(members@, name@) == member_among(
                            members@.subrange(i as int, members@.len() as int),
                            name@,
                        ),
                    decreases members.len() - i,
                {
                    let ghost rest = members@.subrange(i as int, members@.len() as int);
                    assert(rest[0] == members@[i as int]);
                    assert(rest.drop_first() =~= members@.subrange(
                        i as int + 1,
                        members@.len() as int,
                    ));
                    if same_text(members[i].0.as_str(), name) {
                        return Some(&members[i].1);
                    }
                    i = i + 1;
                }
                None
            },
            _ => None,
        }
    }

    /// The text, if this is a text.
    pub fn as_text(&self) -> (r: Option<&str>)
        ensures
            match r {
                Some(s) => self.text_spec() == Some(s@),
                None => self.text_spec() is None,
            },
    {
        match self {
            Json::Text(s) => Some(s.as_str()),
            _ => None,
        }
    }

    /// The number, if this is a number that is a signed 64-bit integer.
    pub fn as_integer(&self) -> (r: Option<i64>)
        ensures
            r == self.integer_spec(),
    {
        match self {
            Json::Number(n) => *n,
            _ => None,
        }
    }

    /// The flag, if this is a flag.
    pub fn as_flag(&self) -> (r: Option<bool>)
        ensures
            r == self.flag_spec(),
    {
        match self {
            Json::Bool(b) => Some(*b),
            _ => None,
        }
    }

    /// The items, if this is an array.
    pub fn as_items(&self) -> (r: Option<&Vec<Json>>)
        ensures
            match r {
                Some(items) => self.items_spec() == Some(items@),
                None => self.items_spec() is None,
            },
    {
        match self {
            Json::Array(items) => Some(items),
            _ => None,
        }
    }

    /// The text of a member, if there is one and it is a text.
    pub fn member_text(&self, name: &str) -> (r: Option<&str>)
        ensures
            match r {
                Some(s) => self.member_text_spec(name@) == Some(s@),
                None => self.member_text_spec(name@) is None,
            },
    {
        match self.member(name) {
            Some(member) => member.as_text(),
            None => None,
        }
    }
}

} // verus!
