//! JSON values of `serde_json`: the calls that build, write, parse and read them.
//!
//! A `serde_json::Value` is opaque here. Its content is named by [`json_text`], the compact JSON
//! text that `serde_json` writes for it, and what is read out of a value is stated over that text.
use vstd::prelude::*;

use crate::text::{decimal_digits, Decoded};

verus! {

/// A JSON value of `serde_json`.
#[verifier::external_type_specification]
#[verifier::external_body]
pub struct ExValue(serde_json::Value);

/// The ordered map of `serde_json` that holds the members of a JSON object.
#[verifier::external_type_specification]
#[verifier::external_body]
#[verifier::reject_recursive_types(K)]
#[verifier::reject_recursive_types(V)]
pub struct ExMap<K, V>(serde_json::Map<K, V>);

/// One member of a JSON object.
pub enum Member {
    /// A string.
    Text(Seq<char>),
    /// An integer from zero to `u64::MAX`.
    Count(u64),
    /// Anything else, by its compact JSON text.
    Other(Seq<char>),
}

/// The members of a JSON object, by key.
pub type Members = Map<Seq<char>, Member>;

/// What an object of `serde_json` holds.
pub uninterp spec fn object_members(object: serde_json::Map<String, serde_json::Value>) -> Members;

/// The compact JSON text that `serde_json::to_vec` writes for a value.
pub uninterp spec fn json_text(value: serde_json::Value) -> Seq<u8>;

/// What `serde_json::from_slice` makes of some bytes: the compact text of the value that it
/// parses, or the text of the error that it reports.
pub uninterp spec fn json_parsed(bytes: Seq<u8>) -> Decoded;

/// The string under `key` in the object with the compact text `text`; `None` where the value is
/// no object, has no such member or holds something else there.
pub uninterp spec fn json_str_at(text: Seq<u8>, key: Seq<char>) -> Option<Seq<char>>;

/// The unsigned integer under `key` in the object with the compact text `text`; `None` where the
/// value is no object, has no such member or holds something else there.
pub uninterp spec fn json_u64_at(text: Seq<u8>, key: Seq<char>) -> Option<u64>;

/// The compact JSON text of the member under `key` of the value with the compact text `text`.
pub uninterp spec fn json_display_at(text: Seq<u8>, key: Seq<char>) -> Seq<char>;

/// The string that a member holds, if it is one.
pub open spec fn member_text(member: Option<Member>) -> Option<Seq<char>> {
    match member {
        Some(Member::Text(t)) => Some(t),
        _ => None,
    }
}

/// The unsigned integer that a member holds, if it is one.
pub open spec fn member_count(member: Option<Member>) -> Option<u64> {
    match member {
        Some(Member::Count(n)) => Some(n),
        _ => None,
    }
}

/// `text` is how a member reads: an unsigned integer as its decimal digits, and a missing member as
/// `null`. Of other members nothing is said.
pub open spec fn reads_as(member: Option<Member>, text: Seq<char>) -> bool {
    match member {
        Some(Member::Count(n)) => text == decimal_digits(n as nat),
        None => text == "null"@,
        _ => true,
    }
}

/// Every member is a string or an unsigned integer.
pub open spec fn is_flat(members: Members) -> bool {
    forall|k: Seq<char>| #[trigger] members.dom().contains(k) ==> !(members[k] is Other)
}

/// Calls `serde_json::Map::new`: an object without members.
#[verifier::external_body]
pub(crate) fn object_new() -> (r: serde_json::Map<String, serde_json::Value>)
    ensures
        object_members(r) == Members::empty(),
{
    serde_json::Map::new()
}

/// Calls `serde_json::Map::insert` with a string: the member under `key` becomes that string, and
/// the others stay.
#[verifier::external_body]
pub(crate) fn object_insert_text(
    object: &mut serde_json::Map<String, serde_json::Value>,
    key: &str,
    text: &str,
)
    ensures
        object_members(*final(object)) == object_members(*old(object)).insert(
            key@,
            Member::Text(text@),
        ),
{
    object.insert(key.to_string(), serde_json::Value::from(text));
}

/// Calls `serde_json::Map::insert` with an unsigned integer: the member under `key` becomes that
/// integer, and the others stay.
#[verifier::external_body]
pub(crate) fn object_insert_count(
    object: &mut serde_json::Map<String, serde_json::Value>,
    key: &str,
    count: u64,
)
    ensures
        object_members(*final(object)) == object_members(*old(object)).insert(
            key@,
            Member::Count(count),
        ),
{
    object.insert(key.to_string(), serde_json::Value::from(count));
}

/// Wraps an object as `serde_json::Value::Object`. Its strings and unsigned integers are found
/// under their keys, an unsigned integer displays as its decimal digits and a missing member as
/// `null`, and where the object holds nothing but strings and unsigned integers,
/// `serde_json::from_slice` parses its compact text back to the same value.
#[verifier::external_body]
pub(crate) fn object_value(object: serde_json::Map<String, serde_json::Value>) -> (r:
    serde_json::Value)
    ensures
        forall|k: Seq<char>| #[trigger]
            json_str_at(json_text(r), k) == member_text(object_members(object).get(k)),
        forall|k: Seq<char>| #[trigger]
            json_u64_at(json_text(r), k) == member_count(object_members(object).get(k)),
        forall|k: Seq<char>|
            reads_as(object_members(object).get(k), #[trigger] json_display_at(json_text(r), k)),
        is_flat(object_members(object)) ==> json_parsed(json_text(r)) == Decoded::Ok(json_text(r)),
{
    serde_json::Value::Object(object)
}

/// Calls `serde_json::to_vec`, which does not fail on a `Value`: the compact JSON text. It is
/// never empty, and no vector holds more than `isize::MAX` bytes.
#[verifier::external_body]
pub(crate) fn to_vec(value: &serde_json::Value) -> (r: Vec<u8>)
    ensures
        r@ == json_text(*value),
        0 < r@.len() <= isize::MAX,
{
    serde_json::to_vec(value).expect("a JSON value always serializes")
}

/// Calls `serde_json::from_slice`, with the text of its error where it reports one.
#[verifier::external_body]
pub(crate) fn from_slice(bytes: &[u8]) -> (r: Result<serde_json::Value, String>)
    ensures
        match r {
            Ok(value) => json_parsed(bytes@) == Decoded::Ok(json_text(value)),
            Err(error) => json_parsed(bytes@) == Decoded::Err(error@),
        },
{
    serde_json::from_slice(bytes).map_err(|e| e.to_string())
}

/// Calls `serde_json::Value::as_str` on the member under `key`.
#[verifier::external_body]
pub(crate) fn str_at(value: &serde_json::Value, key: &str) -> (r: Option<String>)
    ensures
        match r {
            Some(text) => json_str_at(json_text(*value), key@) == Some(text@),
            None => json_str_at(json_text(*value), key@) is None,
        },
{
    value[key].as_str().map(str::to_string)
}

/// Calls `serde_json::Value::as_u64` on the member under `key`.
#[verifier::external_body]
pub(crate) fn u64_at(value: &serde_json::Value, key: &str) -> (r: Option<u64>)
    ensures
        r == json_u64_at(json_text(*value), key@),
{
    value[key].as_u64()
}

/// Formats the member under `key` with the `Display` of `serde_json::Value`, its compact JSON
/// text; a missing member reads `null`.
#[verifier::external_body]
pub(crate) fn display_at(value: &serde_json::Value, key: &str) -> (r: String)
    ensures
        r@ == json_display_at(json_text(*value), key@),
{
    value[key].to_string()
}

} // verus!
