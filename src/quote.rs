//! Random quotes: turning a fetched quote into a result, and into a reply.
use vstd::prelude::*;
use crate::fetch::{Fetched, invalid_json_message};

verus! {

/// Why no quote could be had.
#[derive(Debug, Clone)]
pub enum QuoteError {
    /// The body could not be parsed.
    JsonParse { message: String },
    /// The request failed.
    Request { message: String },
    /// Any other failure.
    GeneralError,
}

impl Default for QuoteError {
    fn default() -> (r: Self)
        ensures
            r == QuoteError::GeneralError,
    {
        QuoteError::GeneralError
    }
}

/// A quote of some kind.
#[derive(Debug)]
pub enum Quote {
    Random(RandomQuote),
}

/// A random quote as the quote service describes it.
#[derive(Debug, Clone, Default)]
pub struct RandomQuote {
    pub id: String,
    pub content: String,
    pub author: String,
    pub tags: Vec<String>,
    pub author_slug: String,
    pub length: i64,
    pub date_added: String,
    pub date_modified: String,
}

/// What `str::trim` returns: the text without leading and trailing whitespace.
pub uninterp spec fn trim_of(s: Seq<char>) -> Seq<char>;

/// Relies on `str::trim`: the result depends on the text alone, and an empty
/// text stays empty.
#[verifier::external_body]
fn trim(s: &str) -> (r: &str)
    ensures
        r@ == trim_of(s@),
        s@.len() == 0 ==> r@.len() == 0,
{
    s.trim()
}

/// The reply text of a quote whose content is `content` and author `author`:
/// the content in asterisks, then a line with a tab, an em dash and the author.
pub open spec fn quote_text_spec(content: Seq<char>, author: Seq<char>) -> Seq<char> {
    "*"@ + content + "*\n\t\u{2014} "@ + author
}

/// The relation between a fetched quote and the result of fetching it.
pub open spec fn fetch_result(response: Fetched<RandomQuote>, r: Result<RandomQuote, QuoteError>) -> bool {
    match response {
        Fetched::RequestFailed(m) => r == Err::<RandomQuote, QuoteError>(QuoteError::Request { message: m }),
        Fetched::Malformed => match r {
            Err(QuoteError::JsonParse { message }) => message@ == "Invalid JSON content"@,
            _ => false,
        },
        Fetched::Decoded(q) => r == Ok::<RandomQuote, QuoteError>(q),
    }
}

/// The reply text for a content that is already trimmed.
pub fn quote_text(content: &str, author: &str) -> (r: String)
    ensures
        r@ == quote_text_spec(content@, author@),
{
    let mut text = String::from_str("*");
    text.append(content);
    text.append("*\n\t\u{2014} ");
    text.append(author);
    text
}

impl RandomQuote {
    /// The quote that a request brought: a failed request and a body that is
    /// not a quote each give their error.
    pub fn fetch(response: Fetched<RandomQuote>) -> (r: Result<RandomQuote, QuoteError>)
        ensures
            fetch_result(response, r),
    {
        match response {
            Fetched::RequestFailed(message) => Err(QuoteError::Request { message }),
            Fetched::Malformed => Err(QuoteError::JsonParse { message: invalid_json_message() }),
            Fetched::Decoded(q) => Ok(q),
        }
    }

    /// The reply text: the trimmed content in asterisks, then the author.
    pub fn render(&self) -> (r: String)
        ensures
            r@ == quote_text_spec(trim_of(self.content@), self.author@),
    {
        quote_text(trim(self.content.as_str()), self.author.as_str())
    }
}

impl Quote {
    /// A random quote from what a request brought, or the error of fetching it.
    pub fn get_random(response: Fetched<RandomQuote>) -> (r: Result<Quote, QuoteError>)
        ensures
            match response {
                Fetched::Decoded(q) => r == Ok::<Quote, QuoteError>(Quote::Random(q)),
                _ => exists|e: QuoteError| fetch_result(response, Err(e)) && r == Err::<Quote, QuoteError>(e),
            },
    {
        match RandomQuote::fetch(response) {
            Ok(q) => Ok(Quote::Random(q)),
            Err(e) => Err(e),
        }
    }

    /// The reply text of the quote.
    pub fn render(&self) -> (r: String)
        ensures
            match self {
                Quote::Random(q) => r@ == quote_text_spec(trim_of(q.content@), q.author@),
            },
    {
        match self {
            Quote::Random(q) => q.render(),
        }
    }
}

} // verus!
