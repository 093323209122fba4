//! URLs, as the `url` crate parses and serializes them.

use vstd::prelude::*;
use url::Url;

verus! {

#[verifier::external_type_specification]
#[verifier::external_body]
pub struct ExUrl(Url);

#[verifier::external_type_specification]
#[verifier::external_body]
pub struct ExUrlParseError(url::ParseError);

/// The components of a URL that the library reads.
#[derive(Debug)]
pub struct UrlParts {
    /// The scheme, without the colon
    pub scheme: String,
    /// The host, where it is a domain name
    pub domain: Option<String>,
    /// The username, empty where there is none
    pub username: String,
    /// The password, if there is one
    pub password: Option<String>,
    /// The path as a whole
    pub path: String,
    /// The segments of the path, unless the URL cannot be a base
    pub segments: Option<Vec<String>>,
    /// The query, if there is one
    pub query: Option<String>,
    /// The fragment, if there is one
    pub fragment: Option<String>,
    /// The name and value of each pair of the query, decoded
    pub pairs: Vec<(String, String)>,
}

/// The serialization of a URL.
pub uninterp spec fn url_text(url: Url) -> Seq<char>;

/// The serialization of the URL that a text parses to, `None` where it does
/// not parse.
pub uninterp spec fn parsed(input: Seq<char>) -> Option<Seq<char>>;

/// The components of a URL.
pub uninterp spec fn parts_of(url: Url) -> UrlParts;

/// The serialization of a URL with segments appended to its path, `None`
/// where the URL cannot be a base.
pub uninterp spec fn with_segments(text: Seq<char>, segments: Seq<Seq<char>>) -> Option<
    Seq<char>,
>;

/// The serialization of a URL with a name and value appended to its query.
pub uninterp spec fn with_query_pair(text: Seq<char>, name: Seq<char>, value: Seq<char>) -> Seq<
    char,
>;

/// `Url::parse`. Trusted: the same text parses to the same URL or fails
/// alike.
#[verifier::external_body]
pub(crate) fn parse(input: &str) -> (r: Result<Url, url::ParseError>)
    ensures
        match r {
            Ok(url) => parsed(input@) == Some(url_text(url)),
            Err(_) => parsed(input@) is None,
        },
{
    Url::parse(input)
}

/// `Clone::clone` of `Url`. Trusted: the copy serializes as the URL it was
/// made from.
#[verifier::external_body]
pub(crate) fn clone_url(url: &Url) -> (copy: Url)
    ensures
        url_text(copy) == url_text(*url),
{
    url.clone()
}

/// The accessors of `Url` for its scheme, domain, username, password, path,
/// path segments, query, fragment and query pairs, each copied. Trusted:
/// reading the same URL twice gives the same components.
#[verifier::external_body]
pub(crate) fn parts(url: &Url) -> (read: UrlParts)
    ensures
        read == parts_of(*url),
{
    UrlParts {
        scheme: url.scheme().to_owned(),
        domain: url.domain().map(str::to_owned),
        username: url.username().to_owned(),
        password: url.password().map(str::to_owned),
        path: url.path().to_owned(),
        segments: url.path_segments().map(|s| s.map(str::to_owned).collect()),
        query: url.query().map(str::to_owned),
        fragment: url.fragment().map(str::to_owned),
        pairs: url.query_pairs().map(|(k, v)| (k.into_owned(), v.into_owned())).collect(),
    }
}

/// `Url::path_segments_mut` and `PathSegmentsMut::extend`. Trusted: the
/// segments are appended to the path and `true` comes back, or the URL cannot
/// be a base, stays as it is, and `false` comes back.
#[verifier::external_body]
pub(crate) fn extend_path(url: &mut Url, segments: &Vec<String>) -> (extended: bool)
    ensures
        extended ==> with_segments(
            url_text(*old(url)),
            segments@.map_values(|segment: String| segment@),
        ) == Some(url_text(*final(url))),
        !extended ==> url_text(*final(url)) == url_text(*old(url)) && with_segments(
            url_text(*old(url)),
            segments@.map_values(|segment: String| segment@),
        ) is None,
{
    match url.path_segments_mut() {
        Ok(mut path) => {
            path.extend(segments);
            true
        },
        Err(()) => false,
    }
}

/// `Url::query_pairs_mut` and `Serializer::append_pair`. Trusted: the pair is
/// appended to the query.
#[verifier::external_body]
pub(crate) fn append_pair(url: &mut Url, name: &str, value: &str)
    ensures
        url_text(*final(url)) == with_query_pair(url_text(*old(url)), name@, value@),
{
    url.query_pairs_mut().append_pair(name, value);
}

} // verus!
