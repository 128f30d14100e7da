//! Random jokes: turning the fields of a joke service's reply into the joke
//! text, or an error.
use vstd::prelude::*;
use crate::fetch::{Fetched, invalid_json_message};

verus! {

/// Why no joke could be had.
#[derive(Debug, Clone)]
pub enum JokeError {
    /// The request failed.
    Request { message: String },
    /// The body could not be parsed, or held no joke.
    JsonParse { message: String },
}

/// One field of a JSON object, as far as the joke logic reads it.
#[derive(Debug, Clone)]
pub enum JsonText {
    /// The object has no such field.
    Absent,
    /// The field holds this string.
    Text(String),
    /// The field holds something other than a string.
    NotText,
}

/// The fields of a joke service's reply that make up a joke.
#[derive(Debug, Clone)]
pub struct JokeReply {
    /// `"single"` or `"twopart"`.
    pub kind: JsonText,
    /// The question of a two-part joke.
    pub setup: JsonText,
    /// The answer of a two-part joke.
    pub delivery: JsonText,
    /// The text of a single joke.
    pub joke: JsonText,
}

/// The joke that a reply holds, if it is complete: for a two-part joke the
/// setup, a line break and the delivery marked as a spoiler; for a single joke
/// its text.
pub open spec fn joke_text(reply: JokeReply) -> Option<Seq<char>> {
    match reply.kind {
        JsonText::Text(k) => if k@ == "twopart"@ {
            match (reply.setup, reply.delivery) {
                (JsonText::Text(s), JsonText::Text(d)) => Some(s@ + "\n||"@ + d@ + "||"@),
                _ => None,
            }
        } else if k@ == "single"@ {
            match reply.joke {
                JsonText::Text(j) => Some(j@),
                _ => None,
            }
        } else {
            None
        },
        _ => None,
    }
}

/// The joke of a reply, if it is complete; see `joke_text`.
fn compose_joke(reply: &JokeReply) -> (r: Option<String>)
    ensures
        match r {
            Some(t) => joke_text(*reply) == Some(t@),
            None => joke_text(*reply) is None,
        },
{
    match &reply.kind {
        JsonText::Text(k) => {
            if k.eq(&String::from_str("twopart")) {
                match (&reply.setup, &reply.delivery) {
                    (JsonText::Text(s), JsonText::Text(d)) => {
                        let mut text = s.clone();
                        text.append("\n||");
                        text.append(d.as_str());
                        text.append("||");
                        Some(text)
                    },
                    _ => None,
                }
            } else if k.eq(&String::from_str("single")) {
                match &reply.joke {
                    JsonText::Text(j) => Some(j.clone()),
                    _ => None,
                }
            } else {
                None
            }
        },
        _ => None,
    }
}

/// `r` is the parse error that says the body held no usable joke.
pub open spec fn is_invalid_json(r: Result<String, JokeError>) -> bool {
    match r {
        Err(JokeError::JsonParse { message }) => message@ == "Invalid JSON content"@,
        _ => false,
    }
}

/// A random joke from what a request brought: a failed request gives its
/// error; a body that is not JSON, or holds no complete or only an empty joke,
/// gives a parse error.
pub fn random_joke(response: Fetched<JokeReply>) -> (r: Result<String, JokeError>)
    ensures
        match response {
            Fetched::RequestFailed(m) => r == Err::<String, JokeError>(JokeError::Request { message: m }),
            Fetched::Malformed => is_invalid_json(r),
            Fetched::Decoded(reply) => if joke_text(reply) is Some && joke_text(reply)->0.len() > 0 {
                r is Ok && r->Ok_0@ == joke_text(reply)->0
            } else {
                is_invalid_json(r)
            },
        },
{
    match response {
        Fetched::RequestFailed(message) => Err(JokeError::Request { message }),
        Fetched::Malformed => Err(JokeError::JsonParse { message: invalid_json_message() }),
        Fetched::Decoded(reply) => match compose_joke(&reply) {
            Some(text) => {
                if text.as_str().is_empty() {
                    Err(JokeError::JsonParse { message: invalid_json_message() })
                } else {
                    Ok(text)
                }
            },
            None => Err(JokeError::JsonParse { message: invalid_json_message() }),
        },
    }
}

} // verus!
