use wiki_api::digits::{i32_to_dec, u64_to_dec};
use wiki_api::parser::{Parser, PlainTextParser};
use wiki_api::urls::{article_url, continue_search_url, open_article_url, search_url};

const BASE: &str = "https://en.wikipedia.org";

#[test]
fn search_url_has_one_srsearch_and_no_continuation() {
    let url = search_url(BASE, "Rust");
    assert_eq!(
        url,
        "https://en.wikipedia.org/w/api.php?action=query&list=search&srwhat=text&srsearch=Rust&format=json"
    );
    assert_eq!(url.matches("srsearch=").count(), 1);
    assert!(!url.contains("continue="));
    assert!(!url.contains("sroffset="));
}

#[test]
fn search_url_keeps_title_verbatim() {
    let url = search_url(BASE, "Rust programming language");
    assert!(url.contains("srsearch=Rust programming language&format=json"));
}

#[test]
fn continue_search_url_echoes_token_and_offset() {
    let url = continue_search_url(BASE, "Rust", "gsroffset||", 20);
    assert_eq!(
        url,
        "https://en.wikipedia.org/w/api.php?action=query&list=search&srwhat=text&srsearch=Rust&format=json&continue=gsroffset||&sroffset=20"
    );
    assert!(url.contains("continue=gsroffset||"));
    assert!(url.contains("sroffset=20"));
}

#[test]
fn continue_search_url_offset_zero() {
    let url = continue_search_url(BASE, "a", "t", 0);
    assert!(url.ends_with("&continue=t&sroffset=0"));
}

#[test]
fn article_url_by_id() {
    assert_eq!(article_url(BASE, 42), "https://en.wikipedia.org?curid=42");
}

#[test]
fn article_url_negative_id() {
    assert_eq!(article_url(BASE, -7), "https://en.wikipedia.org?curid=-7");
}

#[test]
fn article_url_extreme_ids() {
    assert_eq!(article_url(BASE, i32::MAX), "https://en.wikipedia.org?curid=2147483647");
    assert_eq!(article_url(BASE, i32::MIN), "https://en.wikipedia.org?curid=-2147483648");
}

#[test]
fn open_article_url_appends_target() {
    assert_eq!(open_article_url(BASE, "/wiki/Rust"), "https://en.wikipedia.org/wiki/Rust");
}

#[test]
fn open_article_url_empty_target() {
    assert_eq!(open_article_url(BASE, ""), BASE);
}

#[test]
fn decimal_formatting() {
    assert_eq!(u64_to_dec(0), "0");
    assert_eq!(u64_to_dec(9), "9");
    assert_eq!(u64_to_dec(10), "10");
    assert_eq!(u64_to_dec(1234567890), "1234567890");
    assert_eq!(u64_to_dec(u64::MAX), "18446744073709551615");
    assert_eq!(i32_to_dec(0), "0");
    assert_eq!(i32_to_dec(-1), "-1");
    assert_eq!(i32_to_dec(305), "305");
}

#[test]
fn plain_text_parser_strips_tags() {
    let p = PlainTextParser;
    let article = p.parse("<p>Hello <b>world</b></p>");
    assert_eq!(article.content, "Hello world");
}

#[test]
fn plain_text_parser_keeps_untagged_text() {
    let p = PlainTextParser;
    assert_eq!(p.parse("no markup here").content, "no markup here");
    assert_eq!(p.parse("").content, "");
}

#[test]
fn plain_text_parser_drops_tag_contents() {
    let p = PlainTextParser;
    assert_eq!(p.parse("<a href=\"x\">link</a> end").content, "link end");
    assert_eq!(p.parse("<br/>").content, "");
}
