//! JSON values, as `serde_json` reads them.

use vstd::prelude::*;

verus! {

/// What a JSON value holds.
///
/// Of numbers only those that fit `u64` are told apart: negative and fractional ones, and
/// those that are too large, are `OtherNumber`.
pub enum Json {
    Null,
    Bool(bool),
    Unsigned(u64),
    OtherNumber,
    Text(Seq<char>),
    Array(Seq<Json>),
    Object(Map<Seq<char>, Json>),
}

impl Json {
    /// The member of an object under a key; null where there is none.
    pub open spec fn member(self, key: Seq<char>) -> Json {
        match self {
            Json::Object(members) => if members.dom().contains(key) {
                members[key]
            } else {
                Json::Null
            },
            _ => Json::Null,
        }
    }

    /// The characters of a string.
    pub open spec fn text(self) -> Option<Seq<char>> {
        match self {
            Json::Text(text) => Some(text),
            _ => None,
        }
    }

    /// A number that fits `u64`.
    pub open spec fn unsigned(self) -> Option<u64> {
        match self {
            Json::Unsigned(number) => Some(number),
            _ => None,
        }
    }
}

/// A parsed JSON document, or a part of one.
#[verifier::external_type_specification]
#[verifier::external_body]
pub struct ExValue(serde_json::Value);

/// What a `serde_json::Value` holds.
pub uninterp spec fn contents(value: serde_json::Value) -> Json;

/// What `serde_json::from_slice` reads out of bytes, or the text of the error with which it
/// refuses them.
pub uninterp spec fn parsed(bytes: Seq<u8>) -> Result<Json, Seq<char>>;

/// Calls `serde_json::from_slice` for a `serde_json::Value`, and takes the text of the error
/// where there is one.
///
/// Claimed of it: whether it accepts the bytes, what the value that it gives holds, and what
/// its error says, depends on the bytes alone.
#[verifier::external_body]
pub(crate) fn from_slice(bytes: &[u8]) -> (value: Result<serde_json::Value, String>)
    ensures
        match value {
            Ok(value) => parsed(bytes@) == Ok::<Json, Seq<char>>(contents(value)),
            Err(reason) => parsed(bytes@) == Err::<Json, Seq<char>>(reason@),
        },
{
    match serde_json::from_slice(bytes) {
        Ok(value) => Ok(value),
        Err(error) => Err(error.to_string()),
    }
}

/// Indexes a `serde_json::Value` with a string, by its `Index` impl.
///
/// Claimed of it: the member of an object under that key, and null where there is no such
/// member or the value is no object. It does not panic.
#[verifier::external_body]
pub(crate) fn index<'a>(value: &'a serde_json::Value, key: &str) -> (member: &'a serde_json::Value)
    ensures
        contents(*member) == contents(*value).member(key@),
{
    &value[key]
}

/// `serde_json::Value::as_str`: the characters of a string, `None` of any other value.
pub assume_specification[ serde_json::Value::as_str ](value: &serde_json::Value) -> (chars: Option<
    &str,
>)
    ensures
        match chars {
            Some(chars) => contents(*value).text() == Some(chars@),
            None => contents(*value).text() is None,
        },
;

/// `serde_json::Value::as_u64`: a number that fits `u64`, `None` of any other value.
pub assume_specification[ serde_json::Value::as_u64 ](value: &serde_json::Value) -> (number: Option<
    u64,
>)
    ensures
        number == contents(*value).unsigned(),
;

} // verus!
