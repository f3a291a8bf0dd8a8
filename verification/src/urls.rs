//! URL parsing and path building, delegated to the `url` crate.

use vstd::prelude::*;
use crate::text::opt_view;

verus! {

/// A parsed absolute URL: the text it was parsed from, its serialization,
/// its host and whether path segments can be appended to it.
#[derive(Debug)]
pub struct HostUrl {
    pub input: String,
    pub text: String,
    pub host: Option<String>,
    pub can_be_base: bool,
}

/// What `url::Url::parse` makes of `input`: the serialization (`as_str`),
/// the host (`host_str`) and whether the URL can be a base
/// (`!cannot_be_a_base`); or the rendered parse error.
pub uninterp spec fn url_parse_result(input: Seq<char>) -> Result<
    (Seq<char>, Option<Seq<char>>, bool),
    Seq<char>,
>;

/// The serialization of the URL parsed from `input` after its path lost a
/// trailing empty segment and gained `segments` (`path_segments_mut`,
/// `pop_if_empty`, `extend`), each segment percent-encoded by the crate.
pub uninterp spec fn url_with_segments_result(input: Seq<char>, segments: Seq<Seq<char>>) -> Seq<
    char,
>;

/// Whether a host URL parsed and its view agrees with `url_parse_result`.
pub open spec fn parsed_from(u: HostUrl, input: Seq<char>) -> bool {
    &&& u.input@ == input
    &&& url_parse_result(input) matches Ok((t, h, b))
    &&& u.text@ == t
    &&& opt_view(u.host) == h
    &&& u.can_be_base == b
}

/// The view of a list of path segments.
pub open spec fn segments_view(s: Seq<String>) -> Seq<Seq<char>> {
    Seq::new(s.len(), |i: int| s[i]@)
}

/// Parse an absolute URL with `url::Url::parse`; the error is the crate's
/// rendering of its `ParseError`.
#[verifier::external_body]
pub(crate) fn parse_url(input: &str) -> (r: Result<HostUrl, String>)
    ensures
        match (r, url_parse_result(input@)) {
            (Ok(u), Ok(_)) => parsed_from(u, input@),
            (Err(m), Err(e)) => m@ == e,
            _ => false,
        },
{
    match url::Url::parse(input) {
        Ok(u) => Ok(HostUrl {
            input: input.to_string(),
            text: u.as_str().to_string(),
            host: u.host_str().map(|h| h.to_string()),
            can_be_base: !u.cannot_be_a_base(),
        }),
        Err(e) => Err(e.to_string()),
    }
}

/// Append path segments to the URL parsed from `input` with
/// `Url::path_segments_mut`: drop a trailing empty segment, push each of
/// `segments`, and return the serialization.
#[verifier::external_body]
pub(crate) fn url_with_segments(input: &str, segments: &Vec<String>) -> (r: String)
    requires
        url_parse_result(input@) matches Ok((_, _, b)) && b,
    ensures
        r@ == url_with_segments_result(input@, segments_view(segments@)),
{
    let mut u = url::Url::parse(input).expect("parsed before");
    u.path_segments_mut().expect("can be a base").pop_if_empty().extend(segments.iter());
    u.as_str().to_string()
}

} // verus!
