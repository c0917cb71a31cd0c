//! The target of a download as an absolute URL.

use vstd::prelude::*;

verus! {

/// The reason for which the `url` crate rejects a text. Its value is
/// carried to the caller as it came.
#[verifier::external_type_specification]
#[verifier::external_body]
pub struct ExParseError(url::ParseError);

/// What `target` parses to as an absolute URL: the serialization of the
/// URL, or nothing where the text is none.
pub uninterp spec fn parsed_url(target: Seq<char>) -> Option<Seq<char>>;

/// Calls `Url::parse` of the `url` crate. The claim is that the outcome
/// depends on the text alone: it is the serialization of the parsed URL,
/// named `parsed_url`, or the parser's error where that is nothing.
#[verifier::external_body]
pub(crate) fn parse_url(target: &str) -> (parsed: Result<String, url::ParseError>)
    ensures
        match parsed {
            Ok(url) => parsed_url(target@) == Some(url@),
            Err(_) => parsed_url(target@) is None,
        },
{
    url::Url::parse(target).map(String::from)
}

} // verus!
