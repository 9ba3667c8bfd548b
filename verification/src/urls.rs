//! URL parsing, delegated to the `url` crate, and the scheme normalisation of
//! service addresses.

use vstd::prelude::*;
use vstd::string::*;
use crate::text::has_prefix;

verus! {

/// Why a URL was refused by the parser.
#[derive(Debug, PartialEq, Eq)]
pub enum UrlError {
    /// The input has no scheme and no base URL was given.
    RelativeUrlWithoutBase,
    /// Any other parse error, with the parser's message.
    Other(String),
}

/// Model of a [`UrlError`].
pub enum UrlErrorView {
    RelativeUrlWithoutBase,
    Other(Seq<char>),
}

impl View for UrlError {
    type V = UrlErrorView;

    open spec fn view(&self) -> UrlErrorView {
        match self {
            UrlError::RelativeUrlWithoutBase => UrlErrorView::RelativeUrlWithoutBase,
            UrlError::Other(m) => UrlErrorView::Other(m@),
        }
    }
}

/// Model of a list of strings.
pub open spec fn strings_view(v: Seq<String>) -> Seq<Seq<char>> {
    v.map_values(|s: String| s@)
}

/// Model of the result of splitting a parsed URL's path into segments.
pub open spec fn segments_view(r: Result<Option<Vec<String>>, UrlError>) -> Result<Option<Seq<Seq<char>>>, UrlErrorView> {
    match r {
        Ok(Some(v)) => Ok(Some(strings_view(v@))),
        Ok(None) => Ok(None),
        Err(e) => Err(e@),
    }
}

/// Model of the result of reading a parsed URL's host.
pub open spec fn host_view(r: Result<Option<String>, UrlError>) -> Result<Option<Seq<char>>, UrlErrorView> {
    match r {
        Ok(Some(h)) => Ok(Some(h@)),
        Ok(None) => Ok(None),
        Err(e) => Err(e@),
    }
}

/// What `url::Url::parse` followed by `Url::path_segments` gives for an input.
pub uninterp spec fn url_path_segments_of(input: Seq<char>) -> Result<Option<Seq<Seq<char>>>, UrlErrorView>;

/// What `url::Url::parse` followed by `Url::host_str` gives for an input.
pub uninterp spec fn url_host_of(input: Seq<char>) -> Result<Option<Seq<char>>, UrlErrorView>;

/// Calls `url::Url::parse` on `input` and, on success, `Url::path_segments`,
/// each segment copied into a `String`. The contract claims only that the
/// result is a function of `input` (named `url_path_segments_of`).
#[verifier::external_body]
pub(crate) fn parse_path_segments(input: &str) -> (r: Result<Option<Vec<String>>, UrlError>)
    ensures
        segments_view(r) == url_path_segments_of(input@),
{
    match url::Url::parse(input) {
        Ok(u) => Ok(u.path_segments().map(|c| c.map(|s| s.to_string()).collect())),
        Err(url::ParseError::RelativeUrlWithoutBase) => Err(UrlError::RelativeUrlWithoutBase),
        Err(e) => Err(UrlError::Other(e.to_string())),
    }
}

/// Calls `url::Url::parse` on `input` and, on success, `Url::host_str`.
/// The contract claims that the result is a function of `input` (named
/// `url_host_of`) and, as the parser's source shows (a special scheme with an
/// empty host is refused with `EmptyHost`), that an `http://` or `https://`
/// address that parses has a host.
#[verifier::external_body]
pub(crate) fn parse_host(input: &str) -> (r: Result<Option<String>, UrlError>)
    ensures
        host_view(r) == url_host_of(input@),
        r is Ok && (http_scheme().is_prefix_of(input@) || https_scheme().is_prefix_of(input@))
            ==> r->Ok_0 is Some,
{
    match url::Url::parse(input) {
        Ok(u) => Ok(u.host_str().map(|h| h.to_string())),
        Err(url::ParseError::RelativeUrlWithoutBase) => Err(UrlError::RelativeUrlWithoutBase),
        Err(e) => Err(UrlError::Other(e.to_string())),
    }
}

/// `http://`
pub open spec fn http_scheme() -> Seq<char> {
    seq!['h', 't', 't', 'p', ':', '/', '/']
}

/// `https://`
pub open spec fn https_scheme() -> Seq<char> {
    seq!['h', 't', 't', 'p', 's', ':', '/', '/']
}

/// A service address with its scheme: unchanged when it starts with
/// `http://` or `https://`, otherwise prefixed with `http://`.
pub open spec fn with_default_scheme(url: Seq<char>) -> Seq<char> {
    if http_scheme().is_prefix_of(url) || https_scheme().is_prefix_of(url) {
        url
    } else {
        http_scheme() + url
    }
}

/// Adds the default scheme to a service address that has none, so that an
/// address is never written as `http://http://...`.
pub fn normalize_service_url(url: &str) -> (r: String)
    ensures
        r@ == with_default_scheme(url@),
{
    proof {
        reveal_strlit("http://");
        reveal_strlit("https://");
    }
    if has_prefix(url, "http://") || has_prefix(url, "https://") {
        String::from_str(url)
    } else {
        let mut r = String::from_str("http://");
        r.append(url);
        r
    }
}

/// Adding the default scheme twice is the same as adding it once, and the
/// result always starts with `http://` or `https://`.
pub proof fn law_default_scheme_idempotent(url: Seq<char>)
    ensures
        with_default_scheme(with_default_scheme(url)) == with_default_scheme(url),
        http_scheme().is_prefix_of(with_default_scheme(url))
            || https_scheme().is_prefix_of(with_default_scheme(url)),
{
    let r = with_default_scheme(url);
    if !(http_scheme().is_prefix_of(url) || https_scheme().is_prefix_of(url)) {
        assert((http_scheme() + url).subrange(0, 7) =~= http_scheme());
        assert(http_scheme().is_prefix_of(r));
    }
}

} // verus!
