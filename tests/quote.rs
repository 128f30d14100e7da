use bot_commands::fetch::Fetched;
use bot_commands::quote::{Quote, QuoteError, RandomQuote};

fn sample(content: &str) -> RandomQuote {
    RandomQuote {
        id: "NONE".to_string(),
        content: content.to_string(),
        author: "Rust Test".to_string(),
        tags: Vec::new(),
        author_slug: "NONE".to_string(),
        length: 17,
        date_added: "NONE".to_string(),
        date_modified: "NONE".to_string(),
    }
}

#[test]
fn test_random_quote_display() {
    let quote = sample("This is a quote");
    assert_eq!(quote.render(), "*This is a quote*\n\t— Rust Test");
}

#[test]
fn test_quote_display() {
    let quote = Quote::Random(sample("This is a quote"));
    assert_eq!(quote.render(), "*This is a quote*\n\t— Rust Test");
}

#[test]
fn quote_content_is_trimmed() {
    let quote = sample("  \tThis is a quote \n");
    assert_eq!(quote.render(), "*This is a quote*\n\t— Rust Test");
}

#[test]
fn fetch_passes_decoded_quote_through() {
    let q = RandomQuote::fetch(Fetched::Decoded(sample("abc"))).unwrap();
    assert_eq!(q.content, "abc");
    assert_eq!(q.author, "Rust Test");
}

#[test]
fn fetch_reports_request_failure() {
    match RandomQuote::fetch(Fetched::RequestFailed("timed out".to_string())) {
        Err(QuoteError::Request { message }) => assert_eq!(message, "timed out"),
        other => panic!("unexpected {:?}", other),
    }
}

#[test]
fn fetch_reports_malformed_body() {
    match RandomQuote::fetch(Fetched::Malformed) {
        Err(QuoteError::JsonParse { message }) => assert_eq!(message, "Invalid JSON content"),
        other => panic!("unexpected {:?}", other),
    }
}

#[test]
fn get_random_wraps_quote() {
    match Quote::get_random(Fetched::Decoded(sample("x"))) {
        Ok(Quote::Random(q)) => assert_eq!(q.content, "x"),
        Err(e) => panic!("unexpected {:?}", e),
    }
    match Quote::get_random(Fetched::Malformed) {
        Err(QuoteError::JsonParse { message }) => assert_eq!(message, "Invalid JSON content"),
        _ => panic!("expected a parse error"),
    }
}

#[test]
fn quote_error_default_is_general() {
    assert!(matches!(QuoteError::default(), QuoteError::GeneralError));
}
