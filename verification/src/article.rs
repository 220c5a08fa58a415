use vstd::prelude::*;

verus! {

/// Structured representation of a wiki article's content, produced by a
/// parser from the raw HTML body.
#[derive(Debug, Clone)]
pub struct ParsedArticle {
    pub content: String,
}

} // verus!
