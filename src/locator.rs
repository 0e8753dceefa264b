//! What the `url` crate makes of a text: whether it is an absolute URL, and
//! then its host and path segments.

use vstd::prelude::*;

verus! {

/// Whether `url::Url::parse` accepts the text.
pub uninterp spec fn url_parses(text: Seq<char>) -> bool;

/// The host that `url::Url::host_str` gives for the parsed text.
pub uninterp spec fn url_host_of(text: Seq<char>) -> Option<Seq<char>>;

/// The path segments that `url::Url::path_segments` gives for the parsed
/// text; `None` for a URL that cannot be a base.
pub uninterp spec fn url_segments_of(text: Seq<char>) -> Option<Seq<Seq<char>>>;

pub open spec fn is_word_char(c: char) -> bool {
    ('a' <= c && c <= 'z') || ('A' <= c && c <= 'Z') || ('0' <= c && c <= '9')
}

pub open spec fn is_scheme_char(c: char) -> bool {
    is_word_char(c) || c == '+' || c == '-' || c == '.'
}

/// The text cannot start with a URL scheme: it holds no `:`, or some
/// character above U+0020 that may not stand in a scheme comes before any `:`.
pub open spec fn lacks_scheme(text: Seq<char>) -> bool {
    ||| !text.contains(':')
    ||| exists|i: int|
        0 <= i < text.len() && ' ' < #[trigger] text[i] && !is_scheme_char(text[i]) && text[i] != ':'
            && forall|j: int| 0 <= j < i ==> #[trigger] text[j] != ':'
}

/// The host and the path segments of an absolute URL.
pub struct UrlParts {
    pub host: Option<String>,
    pub segments: Option<Vec<String>>,
}

/// Relies on `url::Url::parse`, and on `host_str` and `path_segments` of the
/// URL that it returns. The parser reads a scheme first: the text, trimmed of
/// characters up to U+0020 at both ends and read without tabs and line
/// breaks, must start with an ASCII letter and continue with letters, digits,
/// `+`, `-` or `.` up to a `:`; without a base URL any other text is refused.
#[verifier::external_body]
pub(crate) fn parse_url(text: &str) -> (r: Option<UrlParts>)
    ensures
        r is Some == url_parses(text@),
        r matches Some(parts) ==> parts.host.deep_view() == url_host_of(text@)
            && parts.segments.deep_view() == url_segments_of(text@),
        lacks_scheme(text@) ==> r is None,
{
    url::Url::parse(text).ok().map(|u| UrlParts {
        host: u.host_str().map(String::from),
        segments: u.path_segments().map(|p| p.map(String::from).collect()),
    })
}

} // verus!
