use vstd::prelude::*;

verus! {

#[verifier::external_type_specification]
#[verifier::external_body]
pub struct ExJsonValue(serde_json::Value);

#[verifier::external_type_specification]
#[verifier::external_body]
pub struct ExJsonError(serde_json::Error);

/// Whether a text is one well-formed JSON value: the exact set of texts on
/// which serde_json's parser succeeds.
pub uninterp spec fn is_well_formed_json(s: Seq<char>) -> bool;

/// Whether a body is well-formed JSON whose top value has a "continue"
/// member.
pub uninterp spec fn spec_has_continue(body: Seq<char>) -> bool;

/// The string under the body's "continue"/"continue" path, when that path
/// leads to a JSON string.
pub uninterp spec fn spec_continue_token(body: Seq<char>) -> Option<Seq<char>>;

/// The integer under the body's "continue"/"sroffset" path, when that path
/// leads to a non-negative JSON integer.
pub uninterp spec fn spec_continue_offset(body: Seq<char>) -> Option<u64>;

/// How many elements the array under the body's "query"/"search" path
/// holds, when that path leads to a JSON array.
pub uninterp spec fn spec_hit_count(body: Seq<char>) -> Option<usize>;

/// The string under "title" of the i-th element of the body's
/// "query"/"search" array, when present.
pub uninterp spec fn spec_hit_title(body: Seq<char>, i: int) -> Option<Seq<char>>;

/// The integer under "pageid" of the i-th element of the body's
/// "query"/"search" array, when present.
pub uninterp spec fn spec_hit_pageid(body: Seq<char>, i: int) -> Option<u64>;

/// The string under "snippet" of the i-th element of the body's
/// "query"/"search" array, when present.
pub uninterp spec fn spec_hit_snippet(body: Seq<char>, i: int) -> Option<Seq<char>>;

/// Relies on serde_json::from_str for serde_json::Value: parsing succeeds
/// exactly on well-formed JSON text, a function of the text alone.
#[verifier::external_body]
pub(crate) fn parse_json(s: &str) -> (r: Result<serde_json::Value, serde_json::Error>)
    ensures
        r is Ok <==> is_well_formed_json(s@),
{
    serde_json::from_str(s)
}

/// Relies on serde_json::from_str and Value::get: whether the body parses
/// and its top value has a "continue" member; a function of the text alone.
#[verifier::external_body]
pub(crate) fn has_continue(body: &str) -> (r: bool)
    ensures
        r == spec_has_continue(body@),
{
    match serde_json::from_str::<serde_json::Value>(body) {
        Ok(v) => v.get("continue").is_some(),
        Err(_) => false,
    }
}

/// Relies on serde_json::from_str, Value::get and Value::as_str: the
/// continuation token the body carries; a function of the text alone.
#[verifier::external_body]
pub(crate) fn extract_continue_token(body: &str) -> (r: Option<String>)
    ensures
        r is Some <==> spec_continue_token(body@) is Some,
        r is Some ==> r->0@ == spec_continue_token(body@)->0,
{
    match serde_json::from_str::<serde_json::Value>(body) {
        Ok(v) => v
            .get("continue")
            .and_then(|c| c.get("continue"))
            .and_then(|t| t.as_str())
            .map(|s| s.to_string()),
        Err(_) => None,
    }
}

/// Relies on serde_json::from_str, Value::get and Value::as_u64: the
/// scroll offset the body carries; a function of the text alone.
#[verifier::external_body]
pub(crate) fn extract_continue_offset(body: &str) -> (r: Option<u64>)
    ensures
        r == spec_continue_offset(body@),
{
    match serde_json::from_str::<serde_json::Value>(body) {
        Ok(v) => v.get("continue").and_then(|c| c.get("sroffset")).and_then(|o| o.as_u64()),
        Err(_) => None,
    }
}

/// Relies on serde_json::from_str, Value::get and Value::as_array: how
/// many hits the body's search array holds; a function of the text alone.
#[verifier::external_body]
pub(crate) fn extract_hit_count(body: &str) -> (r: Option<usize>)
    ensures
        r == spec_hit_count(body@),
{
    match serde_json::from_str::<serde_json::Value>(body) {
        Ok(v) => v
            .get("query")
            .and_then(|q| q.get("search"))
            .and_then(|s| s.as_array())
            .map(|a| a.len()),
        Err(_) => None,
    }
}

/// Relies on serde_json::from_str, Value::get and Value::as_str: the title
/// of the i-th hit of the body; a function of the text alone.
#[verifier::external_body]
pub(crate) fn extract_hit_title(body: &str, i: usize) -> (r: Option<String>)
    ensures
        r is Some <==> spec_hit_title(body@, i as int) is Some,
        r is Some ==> r->0@ == spec_hit_title(body@, i as int)->0,
{
    match serde_json::from_str::<serde_json::Value>(body) {
        Ok(v) => v
            .get("query")
            .and_then(|q| q.get("search"))
            .and_then(|s| s.get(i))
            .and_then(|h| h.get("title"))
            .and_then(|t| t.as_str())
            .map(|s| s.to_string()),
        Err(_) => None,
    }
}

/// Relies on serde_json::from_str, Value::get and Value::as_u64: the page
/// id of the i-th hit of the body; a function of the text alone.
#[verifier::external_body]
pub(crate) fn extract_hit_pageid(body: &str, i: usize) -> (r: Option<u64>)
    ensures
        r == spec_hit_pageid(body@, i as int),
{
    match serde_json::from_str::<serde_json::Value>(body) {
        Ok(v) => v
            .get("query")
            .and_then(|q| q.get("search"))
            .and_then(|s| s.get(i))
            .and_then(|h| h.get("pageid"))
            .and_then(|p| p.as_u64()),
        Err(_) => None,
    }
}

/// Relies on serde_json::from_str, Value::get and Value::as_str: the
/// snippet of the i-th hit of the body; a function of the text alone.
#[verifier::external_body]
pub(crate) fn extract_hit_snippet(body: &str, i: usize) -> (r: Option<String>)
    ensures
        r is Some <==> spec_hit_snippet(body@, i as int) is Some,
        r is Some ==> r->0@ == spec_hit_snippet(body@, i as int)->0,
{
    match serde_json::from_str::<serde_json::Value>(body) {
        Ok(v) => v
            .get("query")
            .and_then(|q| q.get("search"))
            .and_then(|s| s.get(i))
            .and_then(|h| h.get("snippet"))
            .and_then(|t| t.as_str())
            .map(|s| s.to_string()),
        Err(_) => None,
    }
}

} // verus!
