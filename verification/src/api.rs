use vstd::prelude::*;
use crate::article::ParsedArticle;
use crate::errors::WikiError;
use crate::net::{build_client, http_get, response_text};
use crate::parser::Parser;
use crate::jsonio::is_well_formed_json;
use crate::search::{
    ContinueCode,
    SearchResponse,
    search_body_to_response,
    spec_body_decodes,
    spec_response_matches,
};
use crate::urls::{article_url, continue_search_url, open_article_url, search_url};

verus! {

/// Single entry point for search and article retrieval against one
/// MediaWiki instance. Owns the HTTP client and the chosen parser for its
/// lifetime; stateless otherwise.
pub struct WikiApi<P: Parser> {
    client: reqwest::blocking::Client,
    parser: P,
    base_url: String,
}

impl<P: Parser> WikiApi<P> {
    /// The base URL every request URL starts from.
    pub closed spec fn spec_base_url(&self) -> Seq<char> {
        self.base_url@
    }

    /// The parser that article fetches hand the HTML body to.
    pub closed spec fn spec_parser(&self) -> P {
        self.parser
    }

    /// Builds a client for the wiki at `base_url` that parses articles
    /// with `parser`. Every request it sends carries a fixed
    /// browser-impersonating User-Agent header. Fails only when the
    /// underlying HTTP client cannot be built.
    pub fn new(base_url: String, parser: P) -> (r: Result<Self, WikiError>)
        ensures
            r is Ok ==> r->Ok_0.spec_base_url() == base_url@ && r->Ok_0.spec_parser() == parser,
            r is Err ==> r->Err_0 is Network,
    {
        match build_client(
            "Mozilla/5.0 (Windows NT 10.0; Win64; x64; rv:90.0) Gecko/20100101 Firefox/90.0",
        ) {
            Ok(client) => Ok(WikiApi { client, parser, base_url }),
            Err(e) => Err(WikiError::Network(e)),
        }
    }

    /// One blocking GET of `url`: the response body as text, or the
    /// transport failure, with no retry.
    fn fetch(&self, url: &str) -> (r: Result<String, WikiError>)
        ensures
            r is Err ==> r->Err_0 is Network,
    {
        let response = match http_get(&self.client, url) {
            Ok(response) => response,
            Err(e) => {
                return Err(WikiError::Network(e));
            },
        };
        match response_text(response) {
            Ok(body) => Ok(body),
            Err(e) => Err(WikiError::Network(e)),
        }
    }

    /// Issues a first-page search for `title`: one GET of the search URL
    /// built from the base URL and the title verbatim, then one
    /// deserialization of the body. A transport failure and a
    /// deserialization failure are both handed to the caller; nothing is
    /// retried and no partial result is returned.
    pub fn search(&self, title: &str) -> (r: Result<SearchResponse, WikiError>)
        ensures
            r is Ok ==> exists|body: Seq<char>|
                #![auto]
                is_well_formed_json(body) && spec_body_decodes(body) && spec_response_matches(
                    body,
                    r->Ok_0,
                ),
            r is Err && r->Err_0 is Json ==> exists|body: Seq<char>| !is_well_formed_json(body),
            r is Err && r->Err_0 is Shape ==> exists|body: Seq<char>|
                #![auto]
                is_well_formed_json(body) && !spec_body_decodes(body),
    {
        self.search_articles(title, None)
    }

    /// Like `search`, but appends the continuation token and scroll
    /// offset of `continue_code` to the query, both echoed verbatim, to
    /// fetch the next results page.
    pub fn continue_search(&self, title: &str, continue_code: &ContinueCode) -> (r: Result<
        SearchResponse,
        WikiError,
    >)
        ensures
            r is Ok ==> exists|body: Seq<char>|
                #![auto]
                is_well_formed_json(body) && spec_body_decodes(body) && spec_response_matches(
                    body,
                    r->Ok_0,
                ),
            r is Err && r->Err_0 is Json ==> exists|body: Seq<char>| !is_well_formed_json(body),
            r is Err && r->Err_0 is Shape ==> exists|body: Seq<char>|
                #![auto]
                is_well_formed_json(body) && !spec_body_decodes(body),
    {
        self.search_articles(title, Some(continue_code))
    }

    /// The one search path: builds the search URL — the continued form
    /// exactly when a continuation is supplied — performs the GET, and
    /// deserializes the JSON body. An `Ok` is exactly the response some
    /// well-formed body carries; a `Json` error comes only from a body
    /// that is not well-formed JSON, a `Shape` error only from a
    /// well-formed body that does not decode, and a `Network` error only
    /// from the transport.
    fn search_articles(&self, title: &str, continue_code: Option<&ContinueCode>) -> (r: Result<
        SearchResponse,
        WikiError,
    >)
        ensures
            r is Ok ==> exists|body: Seq<char>|
                #![auto]
                is_well_formed_json(body) && spec_body_decodes(body) && spec_response_matches(
                    body,
                    r->Ok_0,
                ),
            r is Err && r->Err_0 is Json ==> exists|body: Seq<char>| !is_well_formed_json(body),
            r is Err && r->Err_0 is Shape ==> exists|body: Seq<char>|
                #![auto]
                is_well_formed_json(body) && !spec_body_decodes(body),
    {
        let url: String = match continue_code {
            None => search_url(self.base_url.as_str(), title),
            Some(cc) => continue_search_url(
                self.base_url.as_str(),
                title,
                cc.continue_code.as_str(),
                cc.scroll_offset,
            ),
        };
        let body = match self.fetch(url.as_str()) {
            Ok(body) => body,
            Err(e) => {
                return Err(e);
            },
        };
        search_body_to_response(body.as_str())
    }

    /// Fetches the article addressed by its numeric page id, at
    /// `{base_url}?curid={page_id}`, and parses the HTML body. A
    /// transport failure is the only error it can signal.
    pub fn get_article(&self, page_id: &i32) -> (r: Result<ParsedArticle, WikiError>)
        ensures
            r is Err ==> r->Err_0 is Network,
            r is Ok ==> exists|html: Seq<char>| r->Ok_0.content@ == self.spec_parser().spec_parse(
                html,
            ),
    {
        let url = article_url(self.base_url.as_str(), *page_id);
        self.parse_article(url.as_str())
    }

    /// Performs the GET of `url` and hands the HTML body to the
    /// configured parser.
    fn parse_article(&self, url: &str) -> (r: Result<ParsedArticle, WikiError>)
        ensures
            r is Err ==> r->Err_0 is Network,
            r is Ok ==> exists|html: Seq<char>| r->Ok_0.content@ == self.spec_parser().spec_parse(
                html,
            ),
    {
        let body = match self.fetch(url) {
            Ok(body) => body,
            Err(e) => {
                return Err(e);
            },
        };
        let article = self.parser.parse(body.as_str());
        proof {
            assert(article.content@ == self.spec_parser().spec_parse(body@));
        }
        Ok(article)
    }

    /// Fetches the article addressed by its canonical path segment, at
    /// `{base_url}{target}`, and parses the HTML body. A transport
    /// failure is the only error it can signal.
    pub fn open_article(&self, target: &str) -> (r: Result<ParsedArticle, WikiError>)
        ensures
            r is Err ==> r->Err_0 is Network,
            r is Ok ==> exists|html: Seq<char>| r->Ok_0.content@ == self.spec_parser().spec_parse(
                html,
            ),
    {
        let url = open_article_url(self.base_url.as_str(), target);
        self.parse_article(url.as_str())
    }
}

} // verus!
