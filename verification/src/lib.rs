pub mod api;
pub mod article;
pub mod digits;
pub mod errors;
pub mod jsonio;
mod net;
pub mod parser;
pub mod query;
pub mod search;
pub mod urls;

pub use api::WikiApi;
pub use article::ParsedArticle;
pub use errors::WikiError;
pub use parser::{Parser, PlainTextParser};
pub use search::{ContinueCode, SearchResponse, SearchResult};
