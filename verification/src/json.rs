//! Generic JSON values, as far as the core reads them.
//!
//! Entities cross the boundary of the core as `serde_json::Value`. The core
//! carries such values along and reads one thing of them: the text of their
//! member `kind`.

use vstd::prelude::*;
use vstd::string::*;
use serde_json::Value;
use crate::text::owned;

verus! {

#[verifier::external_type_specification]
#[verifier::external_body]
pub struct ExValue(serde_json::Value);

/// The member `name` of `value`: `None` where `value` is no object or has no
/// such member.
pub uninterp spec fn json_member(value: Value, name: Seq<char>) -> Option<Value>;

/// The text of `value` where it is a JSON string, else `None`.
pub uninterp spec fn json_text(value: Value) -> Option<Seq<char>>;

/// The kind that a JSON value declares: the text of its member `kind`.
/// `None` where it has none or where that member is no string.
pub open spec fn json_kind(value: Value) -> Option<Seq<char>> {
    match json_member(value, "kind"@) {
        Some(member) => json_text(member),
        None => None,
    }
}

/// `serde_json::Value::get` with a text index: the member of that name of
/// an object, `None` for any other value or a missing member. Nothing is
/// claimed beyond naming the result.
#[verifier::external_body]
fn value_get<'a>(value: &'a Value, name: &str) -> (member: Option<&'a Value>)
    ensures
        match member {
            Some(found) => json_member(*value, name@) == Some(*found),
            None => json_member(*value, name@) is None,
        },
{
    value.get(name)
}

/// `serde_json::Value::as_str`: the text of a JSON string, `None` for any
/// other value. Nothing is claimed beyond naming the result.
#[verifier::external_body]
fn value_as_str<'a>(value: &'a Value) -> (text: Option<&'a str>)
    ensures
        match text {
            Some(found) => json_text(*value) == Some(found@),
            None => json_text(*value) is None,
        },
{
    value.as_str()
}

/// Reads the kind that `value` declares.
pub fn event_kind(value: &Value) -> (kind: Option<String>)
    ensures
        match kind {
            Some(text) => json_kind(*value) == Some(text@),
            None => json_kind(*value) is None,
        },
{
    match value_get(value, "kind") {
        Some(member) => match value_as_str(member) {
            Some(text) => Some(owned(text)),
            None => None,
        },
        None => None,
    }
}

} // verus!
