use wiki_api::search::{make_continue, make_search_result, search_body_to_response};
use wiki_api::{PlainTextParser, WikiApi};

#[test]
fn full_body_decodes_exactly() {
    let body = "{\"continue\":{\"sroffset\":20,\"continue\":\"gsroffset||\"},\
                \"query\":{\"search\":[\
                {\"title\":\"Rust\",\"pageid\":23862,\"snippet\":\"a language\"},\
                {\"title\":\"Iron\",\"pageid\":99,\"snippet\":\"an oxide\"}]}}";
    let resp = search_body_to_response(body).unwrap();
    assert_eq!(resp.results.len(), 2);
    assert_eq!(resp.results[0].title, "Rust");
    assert_eq!(resp.results[0].page_id, 23862);
    assert_eq!(resp.results[0].snippet, "a language");
    assert_eq!(resp.results[1].title, "Iron");
    assert_eq!(resp.results[1].page_id, 99);
    let cont = resp.continue_code.unwrap();
    assert_eq!(cont.continue_code, "gsroffset||");
    assert_eq!(cont.scroll_offset, 20);
}

#[test]
fn body_without_continuation_decodes_to_none() {
    let body = "{\"query\":{\"search\":[]}}";
    let resp = search_body_to_response(body).unwrap();
    assert!(resp.results.is_empty());
    assert!(resp.continue_code.is_none());
}

#[test]
fn malformed_body_is_a_deserialization_failure() {
    let err = search_body_to_response("{not json at all").unwrap_err();
    assert!(err.is_deserialize());
    assert!(!err.is_network());
}

#[test]
fn empty_body_is_a_deserialization_failure() {
    let err = search_body_to_response("").unwrap_err();
    assert!(err.is_deserialize());
}

#[test]
fn well_formed_body_of_wrong_shape_is_a_deserialization_failure() {
    let err = search_body_to_response("{\"unexpected\":true}").unwrap_err();
    assert!(err.is_deserialize());
    assert!(!err.is_network());
}

#[test]
fn continuation_missing_offset_is_rejected() {
    let body = "{\"continue\":{\"continue\":\"tok\"},\"query\":{\"search\":[]}}";
    let err = search_body_to_response(body).unwrap_err();
    assert!(err.is_deserialize());
}

#[test]
fn continuation_offset_beyond_u64_is_rejected() {
    let body = "{\"continue\":{\"sroffset\":18446744073709551616,\"continue\":\"tok\"},\
                \"query\":{\"search\":[]}}";
    assert!(search_body_to_response(body).unwrap_err().is_deserialize());
}

#[test]
fn continuation_offset_is_kept_at_full_width() {
    let body = "{\"continue\":{\"sroffset\":4294967296,\"continue\":\"tok\"},\
                \"query\":{\"search\":[]}}";
    let resp = search_body_to_response(body).unwrap();
    assert_eq!(resp.continue_code.unwrap().scroll_offset, 4294967296);
}

#[test]
fn hit_missing_title_is_rejected() {
    let body = "{\"query\":{\"search\":[{\"pageid\":1,\"snippet\":\"s\"}]}}";
    assert!(search_body_to_response(body).unwrap_err().is_deserialize());
}

#[test]
fn hit_page_id_too_large_is_rejected() {
    let body = "{\"query\":{\"search\":[\
                {\"title\":\"t\",\"pageid\":2147483648,\"snippet\":\"s\"}]}}";
    assert!(search_body_to_response(body).unwrap_err().is_deserialize());
}

#[test]
fn make_continue_keeps_fields_verbatim() {
    let code = make_continue(Some("tok".to_string()), Some(7)).unwrap();
    assert_eq!(code.continue_code, "tok");
    assert_eq!(code.scroll_offset, 7);
    assert_eq!(
        make_continue(Some("tok".to_string()), Some(u64::MAX)).unwrap().scroll_offset,
        u64::MAX
    );
    assert!(make_continue(None, Some(7)).is_err());
    assert!(make_continue(Some("tok".to_string()), None).is_err());
}

#[test]
fn make_search_result_keeps_fields_verbatim() {
    let hit = make_search_result(
        Some("Rust".to_string()),
        Some(23862),
        Some("a language".to_string()),
    )
    .unwrap();
    assert_eq!(hit.title, "Rust");
    assert_eq!(hit.page_id, 23862);
    assert_eq!(hit.snippet, "a language");
    assert!(make_search_result(None, Some(1), Some("s".to_string())).is_err());
    assert!(make_search_result(Some("t".to_string()), Some(1), None).is_err());
}

#[test]
fn search_signals_a_network_failure_without_retrying() {
    let api = WikiApi::new("http://127.0.0.1:9".to_string(), PlainTextParser).unwrap();
    let err = api.search("Rust").unwrap_err();
    assert!(err.is_network());
    assert!(!err.is_deserialize());
}

#[test]
fn get_article_signals_a_network_failure_without_retrying() {
    let api = WikiApi::new("http://127.0.0.1:9".to_string(), PlainTextParser).unwrap();
    let err = api.get_article(&42).unwrap_err();
    assert!(err.is_network());
}

#[test]
fn open_article_signals_a_network_failure() {
    let api = WikiApi::new("http://127.0.0.1:9".to_string(), PlainTextParser).unwrap();
    assert!(api.open_article("/wiki/Rust").unwrap_err().is_network());
}

#[test]
fn continue_search_signals_a_network_failure() {
    let api = WikiApi::new("http://127.0.0.1:9".to_string(), PlainTextParser).unwrap();
    let code = make_continue(Some("tok".to_string()), Some(20)).unwrap();
    assert!(api.continue_search("Rust", &code).unwrap_err().is_network());
}
