use vstd::prelude::*;
use crate::calls::created_id;
use crate::error::BrainAIError;

verus! {

#[verifier::external_type_specification]
#[verifier::external_body]
pub struct ExValue(serde_json::Value);

/// The member `key` of a JSON value, as `Value::get` finds it.
pub uninterp spec fn member_of(v: serde_json::Value, key: Seq<char>) -> Option<serde_json::Value>;

/// The text of a JSON value, as `Value::as_str` finds it.
pub uninterp spec fn text_in(v: serde_json::Value) -> Option<Seq<char>>;

/// The items of a JSON value, as `Value::as_array` finds them.
pub uninterp spec fn items_in(v: serde_json::Value) -> Option<Seq<serde_json::Value>>;

/// The text under `key` of a JSON value, if the member is there and is a string.
pub open spec fn text_member_of(v: serde_json::Value, key: Seq<char>) -> Option<Seq<char>> {
    match member_of(v, key) {
        Some(m) => text_in(m),
        None => None,
    }
}

/// The items under `key` of a JSON value; none where the member is missing
/// or is not an array.
pub open spec fn list_member_of(v: serde_json::Value, key: Seq<char>) -> Seq<serde_json::Value> {
    match member_of(v, key) {
        Some(m) => match items_in(m) {
            Some(items) => items,
            None => Seq::empty(),
        },
        None => Seq::empty(),
    }
}

/// Relies on serde_json::Value::get: the member `key` of a JSON object, and
/// nothing for any other value.
#[verifier::external_body]
fn member<'a>(v: &'a serde_json::Value, key: &str) -> (r: Option<&'a serde_json::Value>)
    ensures
        r is Some <==> member_of(*v, key@) is Some,
        r is Some ==> *r->Some_0 == member_of(*v, key@)->Some_0,
{
    v.get(key)
}

/// Relies on serde_json::Value::as_str: the text of a JSON string, and
/// nothing for any other value.
#[verifier::external_body]
fn text_of(v: &serde_json::Value) -> (r: Option<String>)
    ensures
        r is Some <==> text_in(*v) is Some,
        r is Some ==> r->Some_0@ == text_in(*v)->Some_0,
{
    v.as_str().map(|s| s.to_string())
}

/// Relies on serde_json::Value::as_array: the items of a JSON array, in
/// order, and nothing for any other value.
#[verifier::external_body]
fn items_of(v: &serde_json::Value) -> (r: Option<Vec<serde_json::Value>>)
    ensures
        r is Some <==> items_in(*v) is Some,
        r is Some ==> r->Some_0@ == items_in(*v)->Some_0,
{
    v.as_array().cloned()
}

/// The text under `key` of a JSON object, if it is there and is a string.
pub fn text_member(v: &serde_json::Value, key: &str) -> (r: Option<String>)
    ensures
        r is Some <==> text_member_of(*v, key@) is Some,
        r is Some ==> r->Some_0@ == text_member_of(*v, key@)->Some_0,
{
    match member(v, key) {
        Some(m) => text_of(m),
        None => None,
    }
}

/// The items under `key` of a JSON object, in order; a missing member, or one
/// that is not an array, counts as no items.
pub fn list_member(v: &serde_json::Value, key: &str) -> (r: Vec<serde_json::Value>)
    ensures
        r@ == list_member_of(*v, key@),
{
    match member(v, key) {
        Some(m) => match items_of(m) {
            Some(items) => items,
            None => Vec::new(),
        },
        None => Vec::new(),
    }
}

/// The identifier in the answer to a request that created a record: the
/// `id` text of the answer; an answer without one is refused.
pub fn response_id(answer: &serde_json::Value) -> (r: Result<String, BrainAIError>)
    ensures
        r is Ok <==> text_member_of(*answer, "id"@) is Some,
        r is Ok ==> r->Ok_0@ == text_member_of(*answer, "id"@)->Some_0,
        r is Err ==> (match r->Err_0 {
            BrainAIError::Other(m) => m@ == "Invalid response: missing id"@,
            _ => false,
        }),
{
    created_id(text_member(answer, "id"))
}

} // verus!
