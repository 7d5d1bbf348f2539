//! Checks on the video address typed by the user.
use vstd::prelude::*;
use crate::text::{has_prefix, trim, trimmed};

verus! {

/// What `url::Url::parse` makes of `input`: the scheme of the URL it parses,
/// or `None` where it refuses the input.
pub uninterp spec fn parsed_url_scheme(input: Seq<char>) -> Option<Seq<char>>;

/// Parses `input` with `url::Url::parse`; hands back the parsed URL's scheme
/// (`url::Url::scheme`), or `None` where the parser refuses the input. The
/// contract claims only that the result is what the parser gives for this
/// input; how the parser decides is left unsaid.
#[verifier::external_body]
fn parse_url_scheme(input: &str) -> (r: Option<String>)
    ensures
        match r {
            Some(s) => parsed_url_scheme(input@) == Some(s@),
            None => parsed_url_scheme(input@) is None,
        },
{
    match url::Url::parse(input) {
        Ok(u) => Some(u.scheme().to_string()),
        Err(_) => None,
    }
}

/// A scheme that a web download can use.
pub open spec fn is_web_scheme_seq(scheme: Option<Seq<char>>) -> bool {
    scheme == Some("http"@) || scheme == Some("https"@)
}

/// `input` parses as a URL whose scheme is `http` or `https`.
pub open spec fn is_web_url(input: Seq<char>) -> bool {
    is_web_scheme_seq(parsed_url_scheme(input))
}

/// Whether the parser's answer names the `http` or `https` scheme.
pub fn is_web_scheme(scheme: &Option<String>) -> (r: bool)
    ensures
        r == is_web_scheme_seq(
            match scheme {
                Some(s) => Some(s@),
                None => None,
            },
        ),
{
    match scheme {
        Some(s) => crate::text::same_text(s.as_str(), "http") || crate::text::same_text(
            s.as_str(),
            "https",
        ),
        None => false,
    }
}

/// Whether `input` is a URL with the `http` or `https` scheme.
pub fn is_valid_url(input: &str) -> (r: bool)
    ensures
        r == is_web_url(input@),
{
    let scheme = parse_url_scheme(input);
    is_web_scheme(&scheme)
}

/// Why an address typed by the user cannot be downloaded.
#[derive(Debug, Clone, Copy, PartialEq, Eq, Structural)]
pub enum InputError {
    /// Nothing but whitespace was typed.
    Empty,
    /// The text is not an `http` or `https` URL.
    InvalidUrl,
}

/// Checks the address field before a download: the trimmed text is handed
/// back when it is a web URL.
pub fn check_download_input(field: &str) -> (r: Result<String, InputError>)
    ensures
        r matches Err(InputError::Empty) <==> trim(field@).len() == 0,
        r matches Err(InputError::InvalidUrl) <==> trim(field@).len() > 0 && !is_web_url(
            trim(field@),
        ),
        r matches Ok(u) ==> u@ == trim(field@) && is_web_url(u@),
        r is Ok <==> trim(field@).len() > 0 && is_web_url(trim(field@)),
{
    let url = trimmed(field);
    if url.as_str().is_empty() {
        return Err(InputError::Empty);
    }
    if !is_valid_url(url.as_str()) {
        return Err(InputError::InvalidUrl);
    }
    Ok(url)
}

} // verus!
