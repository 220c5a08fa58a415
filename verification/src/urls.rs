use vstd::prelude::*;
use vstd::string::StringExecFns;
use crate::digits::{spec_dec, spec_dec_int, u64_to_dec, i32_to_dec};

verus! {

/// URL of a first-page search: the base URL, the fixed search query,
/// the title verbatim, and the fixed format parameter.
pub open spec fn spec_search_url(base: Seq<char>, title: Seq<char>) -> Seq<char> {
    base + "/w/api.php?action=query&list=search&srwhat=text&srsearch="@ + title
        + "&format=json"@
}

/// URL of a continued search: the first-page search URL followed by the
/// continuation token and the scroll offset, both echoed verbatim.
pub open spec fn spec_continue_search_url(
    base: Seq<char>,
    title: Seq<char>,
    token: Seq<char>,
    offset: nat,
) -> Seq<char> {
    spec_search_url(base, title) + "&continue="@ + token + "&sroffset="@ + spec_dec(offset)
}

/// URL of an article addressed by its numeric page id.
pub open spec fn spec_article_url(base: Seq<char>, page_id: int) -> Seq<char> {
    base + "?curid="@ + spec_dec_int(page_id)
}

/// URL of an article addressed by its canonical path segment.
pub open spec fn spec_open_article_url(base: Seq<char>, target: Seq<char>) -> Seq<char> {
    base + target
}

/// Builds the first-page search URL by plain interpolation: no encoding,
/// no escaping of the title.
pub fn search_url(base: &str, title: &str) -> (url: String)
    ensures
        url@ == spec_search_url(base@, title@),
{
    let mut url = String::from_str(base);
    url.append("/w/api.php?action=query&list=search&srwhat=text&srsearch=");
    url.append(title);
    url.append("&format=json");
    url
}

/// Builds the continued-search URL: the token and offset are appended
/// verbatim, with no transformation.
pub fn continue_search_url(base: &str, title: &str, token: &str, offset: u64) -> (url: String)
    ensures
        url@ == spec_continue_search_url(base@, title@, token@, offset as nat),
{
    let mut url = search_url(base, title);
    url.append("&continue=");
    url.append(token);
    url.append("&sroffset=");
    let digits = u64_to_dec(offset);
    url.append(digits.as_str());
    url
}

/// Builds the URL that addresses an article by numeric page id.
pub fn article_url(base: &str, page_id: i32) -> (url: String)
    ensures
        url@ == spec_article_url(base@, page_id as int),
{
    let mut url = String::from_str(base);
    url.append("?curid=");
    let digits = i32_to_dec(page_id);
    url.append(digits.as_str());
    url
}

/// Builds the URL that addresses an article by its path segment.
pub fn open_article_url(base: &str, target: &str) -> (url: String)
    ensures
        url@ == spec_open_article_url(base@, target@),
{
    let mut url = String::from_str(base);
    url.append(target);
    url
}

} // verus!
