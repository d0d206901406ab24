//! JSON values as the hub reads and builds them.
//!
//! The values themselves are `serde_json::Value`. The hub sees into one
//! through [`json_view`]: it reads members, strings and unsigned numbers,
//! and builds objects of strings and numbers.

use vstd::prelude::*;

verus! {

/// `serde_json::Value`, a JSON value. The hub sees into it only through
/// [`json_view`].
#[verifier::external_type_specification]
#[verifier::external_body]
pub struct ExJsonValue(serde_json::Value);

/// `serde_json::Error`, of which the hub reads only its message.
#[verifier::external_type_specification]
#[verifier::external_body]
pub struct ExJsonError(serde_json::Error);

/// What a JSON value holds.
///
/// A number is seen only as the unsigned 64-bit integer it may be, and an
/// object as its members without their order.
pub enum JsonView {
    Null,
    Boolean(bool),
    Number { unsigned: Option<u64> },
    Text(Seq<char>),
    List(Seq<JsonView>),
    Object(Map<Seq<char>, JsonView>),
}

impl JsonView {
    /// The members of an object; a value that is no object has none.
    pub open spec fn members(self) -> Map<Seq<char>, JsonView> {
        match self {
            JsonView::Object(members) => members,
            _ => Map::empty(),
        }
    }

    /// The member of an object under `key`, if the value is an object that
    /// has one.
    pub open spec fn member(self, key: Seq<char>) -> Option<JsonView> {
        if self.members().contains_key(key) {
            Some(self.members()[key])
        } else {
            None
        }
    }

    /// The text of a JSON string; `None` for any other value.
    pub open spec fn as_text(self) -> Option<Seq<char>> {
        match self {
            JsonView::Text(t) => Some(t),
            _ => None,
        }
    }

    /// The text of the member under `key`, where the value is an object
    /// that has one and the member is a string.
    pub open spec fn member_text(self, key: Seq<char>) -> Option<Seq<char>> {
        match self.member(key) {
            Some(m) => m.as_text(),
            None => None,
        }
    }

    /// The value of a number that is an unsigned 64-bit integer; `None` for
    /// any other value.
    pub open spec fn as_unsigned(self) -> Option<u64> {
        match self {
            JsonView::Number { unsigned } => unsigned,
            _ => None,
        }
    }
}

/// What the value `v` holds.
pub uninterp spec fn json_view(v: serde_json::Value) -> JsonView;

/// What the value holds that `serde_json::from_str` reads from `text`, or
/// `None` where it reports an error.
pub uninterp spec fn json_parsed(text: Seq<char>) -> Option<JsonView>;

/// The text that `serde_json::to_string` writes for `v`, or `None` where it
/// reports an error.
pub uninterp spec fn json_wire(v: serde_json::Value) -> Option<Seq<char>>;

/// Calls `serde_json::from_str` for a `Value`. The contract names what the
/// value holds [`json_parsed`]: the same text always reads as the same
/// value, or always fails.
#[verifier::external_body]
pub(crate) fn parse(text: &str) -> (r: Result<serde_json::Value, serde_json::Error>)
    ensures
        match r {
            Ok(v) => json_parsed(text@) == Some(json_view(v)),
            Err(_) => json_parsed(text@) is None,
        },
{
    serde_json::from_str::<serde_json::Value>(text)
}

/// Calls `serde_json::to_string` on a `Value`. The contract names the
/// outcome [`json_wire`]: the same value is always written as the same text,
/// or always fails.
#[verifier::external_body]
pub(crate) fn to_wire(v: &serde_json::Value) -> (r: Result<String, serde_json::Error>)
    ensures
        match r {
            Ok(s) => json_wire(*v) == Some(s@),
            Err(_) => json_wire(*v) is None,
        },
{
    serde_json::to_string(v)
}

/// Writes a `serde_json::Error` with its `Display`. Nothing is claimed of
/// the text.
#[verifier::external_body]
pub(crate) fn error_text(error: &serde_json::Error) -> (message: String) {
    error.to_string()
}

/// Calls `Value::get` with a string key: the member under `key` where the
/// value is an object that has one, and `None` for an object without it and
/// for any value that is no object.
#[verifier::external_body]
pub(crate) fn member<'a>(v: &'a serde_json::Value, key: &str) -> (r: Option<&'a serde_json::Value>)
    ensures
        match r {
            Some(m) => json_view(*v).member(key@) == Some(json_view(*m)),
            None => json_view(*v).member(key@) is None,
        },
{
    v.get(key)
}

/// Calls `Value::as_str`: the text where the value is a string, else `None`.
#[verifier::external_body]
pub(crate) fn as_text<'a>(v: &'a serde_json::Value) -> (r: Option<&'a str>)
    ensures
        match r {
            Some(s) => json_view(*v).as_text() == Some(s@),
            None => json_view(*v).as_text() is None,
        },
{
    v.as_str()
}

/// Calls `Value::as_u64`: the number where the value is an integer that
/// fits in `u64`, else `None`.
#[verifier::external_body]
pub(crate) fn as_unsigned(v: &serde_json::Value) -> (r: Option<u64>)
    ensures
        r == json_view(*v).as_unsigned(),
{
    v.as_u64()
}

/// Makes `Value::Null`.
#[verifier::external_body]
pub(crate) fn null() -> (v: serde_json::Value)
    ensures
        json_view(v) == JsonView::Null,
{
    serde_json::Value::Null
}

/// Makes a JSON string with `Value::from`, holding a copy of `s`.
#[verifier::external_body]
pub(crate) fn text(s: &str) -> (v: serde_json::Value)
    ensures
        json_view(v) == JsonView::Text(s@),
{
    serde_json::Value::from(s)
}

/// Makes a JSON number with `Value::from` for a `u64`.
#[verifier::external_body]
pub(crate) fn unsigned(n: u64) -> (v: serde_json::Value)
    ensures
        json_view(v) == (JsonView::Number { unsigned: Some(n) }),
{
    serde_json::Value::from(n)
}

/// Assigns through `Value`'s `IndexMut` for a string key. On an object the
/// member under `key` is set or replaced and the others stay; `Value::Null`
/// counts as the empty object. Any other value makes the index panic, so
/// `requires` leaves it out.
#[verifier::external_body]
pub(crate) fn set_member(object: &mut serde_json::Value, key: &str, value: serde_json::Value)
    requires
        json_view(*old(object)) is Object || json_view(*old(object)) is Null,
    ensures
        json_view(*final(object)) == JsonView::Object(
            json_view(*old(object)).members().insert(key@, json_view(value)),
        ),
{
    object[key] = value;
}

/// The text of the member `key` of `v`, where `v` is an object that has
/// one and the member is a string.
pub fn member_text<'a>(v: &'a serde_json::Value, key: &str) -> (text: Option<&'a str>)
    ensures
        match text {
            Some(t) => json_view(*v).member_text(key@) == Some(t@),
            None => json_view(*v).member_text(key@) is None,
        },
{
    match member(v, key) {
        Some(m) => as_text(m),
        None => None,
    }
}

} // verus!
