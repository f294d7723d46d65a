//! URLs: what the pipeline takes on trust from the `url` crate.

use vstd::prelude::*;

verus! {

/// `url::Url`: a parsed absolute URL.
#[verifier::external_type_specification]
#[verifier::external_body]
pub struct ExUrl(url::Url);

/// `url::ParseError`: why a text is not a URL.
#[verifier::external_type_specification]
#[verifier::external_body]
pub struct ExParseError(url::ParseError);

/// What `url::Url::parse` makes of a text: the URL it parses to, or the
/// parser's reason why it is none.
pub uninterp spec fn parsed_url(text: Seq<char>) -> Result<url::Url, url::ParseError>;

/// The serialization that a `url::Url` holds, as `url::Url::as_str` returns
/// it.
pub uninterp spec fn url_text(url: url::Url) -> Seq<char>;

/// `url::Url::parse` parses an absolute URL from a text. Taken on trust:
/// it returns, and what it returns, URL or reason, depends on the text
/// alone. Which texts parse, and to what, is not stated.
pub assume_specification[ url::Url::parse ](input: &str) -> (r: Result<url::Url, url::ParseError>)
    ensures
        r == parsed_url(input@),
;

/// `url::Url::as_str` returns the serialization stored in the URL. Taken
/// on trust: that text depends on the URL alone.
pub assume_specification<'a>[ url::Url::as_str ](url: &'a url::Url) -> (s: &'a str)
    ensures
        s@ == url_text(*url),
;

} // verus!
