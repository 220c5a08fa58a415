use vstd::prelude::*;

verus! {

/// The client's error taxonomy: the request could not be sent or no
/// response arrived; the response body was not well-formed JSON; or the
/// JSON did not have the expected shape. The last two are both
/// deserialization failures. No error aborts the process: every operation
/// hands its error to the caller.
#[derive(Debug)]
pub enum WikiError {
    Network(reqwest::Error),
    Json(serde_json::Error),
    Shape,
}

impl WikiError {
    /// A transport failure: the request could not be sent or no response
    /// arrived.
    pub fn is_network(&self) -> (r: bool)
        ensures
            r == (self is Network),
    {
        matches!(self, WikiError::Network(_))
    }

    /// A deserialization failure: the response body could not be turned
    /// into the expected value, whether malformed JSON or JSON of the
    /// wrong shape.
    pub fn is_deserialize(&self) -> (r: bool)
        ensures
            r == (self is Json || self is Shape),
    {
        !matches!(self, WikiError::Network(_))
    }
}

} // verus!
