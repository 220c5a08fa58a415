use vstd::prelude::*;
use crate::errors::WikiError;
use crate::jsonio::{
    extract_continue_offset,
    extract_continue_token,
    extract_hit_count,
    extract_hit_pageid,
    extract_hit_snippet,
    extract_hit_title,
    has_continue,
    is_well_formed_json,
    parse_json,
    spec_continue_offset,
    spec_continue_token,
    spec_has_continue,
    spec_hit_count,
    spec_hit_pageid,
    spec_hit_snippet,
    spec_hit_title,
};

verus! {

/// Server-issued continuation: an opaque token and a numeric scroll
/// offset, echoed back verbatim on the next search call.
#[derive(Debug, Clone)]
pub struct ContinueCode {
    pub continue_code: String,
    pub scroll_offset: u64,
}

/// One search hit: the article's title, its numeric page id, and a
/// snippet of the matching text.
#[derive(Debug, Clone)]
pub struct SearchResult {
    pub title: String,
    pub page_id: i32,
    pub snippet: String,
}

/// Result of one search query: the matching articles, and the
/// continuation when the server offered a next page.
#[derive(Debug, Clone)]
pub struct SearchResponse {
    pub results: Vec<SearchResult>,
    pub continue_code: Option<ContinueCode>,
}

/// Whether the i-th hit of a body carries all three fields, with a page
/// id that fits the page-id type.
pub open spec fn spec_hit_ok(body: Seq<char>, i: int) -> bool {
    &&& spec_hit_title(body, i) is Some
    &&& spec_hit_pageid(body, i) is Some
    &&& spec_hit_pageid(body, i)->0 <= i32::MAX
    &&& spec_hit_snippet(body, i) is Some
}

/// Whether a body decodes into a search response: its continuation, when
/// it carries one, is complete, it has a search array, and every hit is
/// complete with a fitting page id.
pub open spec fn spec_body_decodes(body: Seq<char>) -> bool {
    &&& spec_has_continue(body) ==> (spec_continue_token(body) is Some && spec_continue_offset(
        body,
    ) is Some)
    &&& spec_hit_count(body) is Some
    &&& forall|i: int| 0 <= i < spec_hit_count(body)->0 ==> spec_hit_ok(body, i)
}

/// Whether `hit` is exactly the i-th hit the body carries.
pub open spec fn spec_hit_matches(body: Seq<char>, i: int, hit: SearchResult) -> bool {
    &&& hit.title@ == spec_hit_title(body, i)->0
    &&& hit.page_id == spec_hit_pageid(body, i)->0
    &&& hit.snippet@ == spec_hit_snippet(body, i)->0
}

/// Whether `resp` is exactly the response decoded from the body: the
/// continuation is carried over verbatim when the body has one, and the
/// hits are the body's hits, in the body's order, none dropped and none
/// added.
pub open spec fn spec_response_matches(body: Seq<char>, resp: SearchResponse) -> bool {
    &&& resp.continue_code is Some <==> spec_has_continue(body)
    &&& resp.continue_code is Some ==> (resp.continue_code->0.continue_code@ == spec_continue_token(
        body,
    )->0 && resp.continue_code->0.scroll_offset == spec_continue_offset(body)->0)
    &&& spec_hit_count(body) is Some
    &&& resp.results@.len() == spec_hit_count(body)->0
    &&& forall|i: int|
        0 <= i < resp.results@.len() ==> spec_hit_matches(body, i, #[trigger] resp.results@[i])
}

/// Builds a continuation from the plain values read out of the response:
/// exactly when both fields are present, the continuation holds them
/// unchanged; otherwise the shape is wrong.
pub fn make_continue(token: Option<String>, offset: Option<u64>) -> (r: Result<
    ContinueCode,
    WikiError,
>)
    ensures
        token is Some && offset is Some ==> (r is Ok && r->Ok_0.continue_code@ == token->0@
            && r->Ok_0.scroll_offset == offset->0),
        token is None || offset is None ==> (r is Err && r->Err_0 == WikiError::Shape),
{
    match (token, offset) {
        (Some(t), Some(o)) => Ok(ContinueCode { continue_code: t, scroll_offset: o }),
        _ => Err(WikiError::Shape),
    }
}

/// Builds one search hit from the plain values read out of the response:
/// exactly when all three fields are present and the page id fits, the
/// hit holds them unchanged; otherwise the shape is wrong.
pub fn make_search_result(
    title: Option<String>,
    page_id: Option<u64>,
    snippet: Option<String>,
) -> (r: Result<SearchResult, WikiError>)
    ensures
        title is Some && page_id is Some && snippet is Some && page_id->0 <= i32::MAX ==> (r
            is Ok && r->Ok_0.title@ == title->0@ && r->Ok_0.page_id == page_id->0
            && r->Ok_0.snippet@ == snippet->0@),
        title is None || snippet is None || page_id is None || page_id->0 > i32::MAX ==> (r
            is Err && r->Err_0 == WikiError::Shape),
{
    match (title, page_id, snippet) {
        (Some(t), Some(p), Some(s)) => {
            if p <= i32::MAX as u64 {
                Ok(SearchResult { title: t, page_id: p as i32, snippet: s })
            } else {
                Err(WikiError::Shape)
            }
        },
        _ => Err(WikiError::Shape),
    }
}

/// Reads a search response out of a response body: the hits under
/// "query"/"search" in the body's order, and the continuation under
/// "continue" when the body carries one. Succeeds exactly on bodies that
/// decode, returns exactly what the body carries, and the only failure it
/// can signal is a shape failure.
pub fn decode_search_body(body: &str) -> (r: Result<SearchResponse, WikiError>)
    ensures
        r is Ok <==> spec_body_decodes(body@),
        r is Ok ==> spec_response_matches(body@, r->Ok_0),
        r is Err ==> r->Err_0 == WikiError::Shape,
{
    let n: usize = match extract_hit_count(body) {
        Some(n) => n,
        None => {
            return Err(WikiError::Shape);
        },
    };
    let mut results: Vec<SearchResult> = Vec::new();
    let mut i: usize = 0;
    while i < n
        invariant
            i <= n,
            spec_hit_count(body@) == Some(n),
            results@.len() == i,
            forall|j: int| 0 <= j < i ==> spec_hit_ok(body@, j),
            forall|j: int| 0 <= j < i ==> spec_hit_matches(body@, j, #[trigger] results@[j]),
        decreases n - i,
    {
        let title = extract_hit_title(body, i);
        let page_id = extract_hit_pageid(body, i);
        let snippet = extract_hit_snippet(body, i);
        match make_search_result(title, page_id, snippet) {
            Ok(hit) => results.push(hit),
            Err(e) => {
                proof {
                    assert(!spec_hit_ok(body@, i as int));
                    assert(!spec_body_decodes(body@));
                }
                return Err(e);
            },
        }
        i = i + 1;
    }
    let continue_code: Option<ContinueCode> = if has_continue(body) {
        let token = extract_continue_token(body);
        let offset = extract_continue_offset(body);
        match make_continue(token, offset) {
            Ok(cc) => Some(cc),
            Err(e) => {
                return Err(e);
            },
        }
    } else {
        None
    };
    Ok(SearchResponse { results, continue_code })
}

/// Decoding is pure: two responses decoded from one body agree in every
/// field — same continuation, same hits, in the same order, none dropped
/// and none added.
pub proof fn lemma_decode_deterministic(body: Seq<char>, a: SearchResponse, b: SearchResponse)
    requires
        spec_response_matches(body, a),
        spec_response_matches(body, b),
    ensures
        a.continue_code is Some <==> b.continue_code is Some,
        a.continue_code is Some ==> (a.continue_code->0.continue_code@
            == b.continue_code->0.continue_code@ && a.continue_code->0.scroll_offset
            == b.continue_code->0.scroll_offset),
        a.results@.len() == b.results@.len(),
        forall|i: int|
            0 <= i < a.results@.len() ==> (#[trigger] a.results@[i].title@ == b.results@[i].title@
                && a.results@[i].page_id == b.results@[i].page_id && a.results@[i].snippet@
                == b.results@[i].snippet@),
{
    assert forall|i: int|
        0 <= i < a.results@.len() implies (#[trigger] a.results@[i].title@
        == b.results@[i].title@ && a.results@[i].page_id == b.results@[i].page_id
        && a.results@[i].snippet@ == b.results@[i].snippet@) by {
        assert(spec_hit_matches(body, i, a.results@[i]));
        assert(spec_hit_matches(body, i, b.results@[i]));
    }
}

/// Turns a raw search response body into a search response. A body that
/// is not well-formed JSON gives exactly a JSON deserialization failure,
/// with no partial parsing; a well-formed body gives exactly the response
/// it carries, or a shape failure exactly when it does not decode.
pub fn search_body_to_response(body: &str) -> (r: Result<SearchResponse, WikiError>)
    ensures
        r is Err && r->Err_0 is Json <==> !is_well_formed_json(body@),
        is_well_formed_json(body@) ==> (r is Ok <==> spec_body_decodes(body@)),
        r is Ok ==> spec_response_matches(body@, r->Ok_0),
        is_well_formed_json(body@) && !spec_body_decodes(body@) ==> (r is Err && r->Err_0
            == WikiError::Shape),
{
    match parse_json(body) {
        Err(e) => Err(WikiError::Json(e)),
        Ok(_) => decode_search_body(body),
    }
}

} // verus!
