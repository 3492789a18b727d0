//! JSON as a tree of values. Reading JSON text is the work of `serde_json`;
//! what a tree must hold to be a record is decided elsewhere in this crate.

use vstd::prelude::*;
use vstd::string::*;

verus! {

/// `serde_json::Value`, named so that it can be handed on. Nothing is known
/// of what a value holds.
#[verifier::external_type_specification]
#[verifier::external_body]
pub struct ExValue(serde_json::Value);

/// A JSON number: a whole number where it fits one, else its notation.
#[derive(Debug, PartialEq, Eq)]
pub enum JsonNumber {
    /// A whole number from 0 to 2^64 - 1.
    Unsigned(u64),
    /// A whole number below 0.
    Negative(i64),
    /// Any other number, as it is written.
    Other(String),
}

/// A JSON value.
#[derive(Debug, PartialEq, Eq)]
pub enum Json {
    Null,
    Bool(bool),
    Number(JsonNumber),
    Text(String),
    Array(Vec<Json>),
    /// The members of an object, each a name and a value.
    Object(Vec<(String, Json)>),
}

/// What `serde_json` reads from `text`: the value that the text denotes, or
/// what it has to say against the text.
pub uninterp spec fn json_decoded(text: Seq<char>) -> Result<Json, String>;

/// The value of the first member of `members` that is named `name`.
pub open spec fn member_of(members: Seq<(String, Json)>, name: Seq<char>) -> Option<Json>
    decreases members.len(),
{
    if members.len() == 0 {
        None
    } else if members[0].0@ == name {
        Some(members[0].1)
    } else {
        member_of(members.drop_first(), name)
    }
}

impl Json {
    /// The value of the member `name`, if this is an object that has one.
    pub open spec fn member(self, name: Seq<char>) -> Option<Json> {
        match self {
            Json::Object(members) => member_of(members@, name),
            _ => None,
        }
    }

    /// Reads JSON text.
    pub fn decode(text: &str) -> (result: Result<Json, String>)
        ensures
            result == json_decoded(text@),
    {
        decode_json(text)
    }

    /// The value of the member `name`, if this is an object that has one.
    pub fn get(&self, name: &str) -> (value: Option<&Json>)
        ensures
            value is Some <==> self.member(name@) is Some,
            value matches Some(found) ==> self.member(name@) == Some(*found),
    {
        match self {
            Json::Object(members) => {
                let wanted = String::from_str(name);
                let mut i: usize = 0;
                assert(members@.skip(0) =~= members@);
                while i < members.len()
                    invariant
                        i <= members.len(),
                        wanted@ == name@,
                        self.member(name@) == member_of(members@.skip(i as int), name@),
                    decreases members.len() - i,
                {
                    let ghost rest = members@.skip(i as int);
                    assert(rest[0] == members@[i as int]);
                    assert(rest.drop_first() =~= members@.skip(i + 1));
                    if members[i].0 == wanted {
                        assert(member_of(rest, name@) == Some(members@[i as int].1));
                        return Some(&members[i].1);
                    }
                    assert(member_of(rest, name@) == member_of(rest.drop_first(), name@));
                    i += 1;
                }
                assert(members@.skip(i as int).len() == 0);
                None
            },
            _ => None,
        }
    }
}

/// Reads JSON text with `serde_json`.
///
/// Calls `serde_json::from_str` for a `serde_json::Value`, which depends on
/// the text alone, and hands out the value as a tree of this crate, or the
/// text of the error. What is read from which text is not stated: the result
/// is only given its name.
#[verifier::external_body]
fn decode_json(text: &str) -> (result: Result<Json, String>)
    ensures
        result == json_decoded(text@),
{
    match serde_json::from_str::<serde_json::Value>(text) {
        Ok(value) => Ok(tree_of(value)),
        Err(error) => Err(error.to_string()),
    }
}

/// A `serde_json::Value` as a tree of this crate, variant for variant. A
/// number becomes what `as_u64` gives, else what `as_i64` gives, else the
/// number as `serde_json` writes it. The members of an object come in the
/// order in which `serde_json` hands them out. Nothing is claimed of the tree.
#[verifier::external_body]
fn tree_of(value: serde_json::Value) -> (tree: Json) {
    match value {
        serde_json::Value::Null => Json::Null,
        serde_json::Value::Bool(flag) => Json::Bool(flag),
        serde_json::Value::Number(number) => Json::Number(match (number.as_u64(), number.as_i64()) {
            (Some(whole), _) => JsonNumber::Unsigned(whole),
            (None, Some(whole)) => JsonNumber::Negative(whole),
            (None, None) => JsonNumber::Other(number.to_string()),
        }),
        serde_json::Value::String(text) => Json::Text(text),
        serde_json::Value::Array(items) => Json::Array(items.into_iter().map(tree_of).collect()),
        serde_json::Value::Object(members) => Json::Object(
            members.into_iter().map(|(name, value)| (name, tree_of(value))).collect(),
        ),
    }
}

} // verus!
