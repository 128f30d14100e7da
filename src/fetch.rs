//! What a request for a JSON document came to, as handed over by the caller
//! that performed it.
use vstd::prelude::*;

verus! {

/// The outcome of one HTTP GET whose body was decoded as JSON.
#[derive(Debug)]
pub enum Fetched<T> {
    /// The request itself failed; the transport's message.
    RequestFailed(String),
    /// A response came, but its body is not the expected JSON.
    Malformed,
    /// The decoded body.
    Decoded(T),
}

/// The message of an error on a body that is not the expected JSON.
pub fn invalid_json_message() -> (r: String)
    ensures
        r@ == "Invalid JSON content"@,
{
    String::from_str("Invalid JSON content")
}

} // verus!
