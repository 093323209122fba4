//! Rewriting of IPFS URLs onto an asset proxy.
//!
//! A URL that points at content on IPFS names the content's identifier
//! somewhere: in its host, in its path, in its query. The proxy reads every
//! part of the URL that could hold an identifier, and where it finds exactly
//! one, rewrites the URL onto the asset CDN.

use vstd::prelude::*;
use url::Url;
use crate::util::text::{split, split_spec, str_eq};
use crate::web::{
    append_pair,
    clone_url,
    extend_path,
    parse,
    parsed,
    parts,
    parts_of,
    url_text,
    with_query_pair,
    with_segments,
    UrlParts,
};

verus! {

/// Supported width sizes for asset proxy
#[derive(Debug, Clone, Copy, PartialEq, Eq, Structural, Hash)]
pub enum ImageSize {
    /// image natural size
    Original,
    /// tiny image
    Tiny,
    /// extra small image
    XSmall,
    /// small image
    Small,
    /// medium image
    Medium,
    /// large image
    Large,
}

impl ImageSize {
    /// The width in pixels as the proxy is asked for it, zero standing for the
    /// image's natural size.
    pub open spec fn width_spec(self) -> Seq<char> {
        match self {
            ImageSize::Original => "0"@,
            ImageSize::Tiny => "100"@,
            ImageSize::XSmall => "400"@,
            ImageSize::Small => "600"@,
            ImageSize::Medium => "800"@,
            ImageSize::Large => "1000"@,
        }
    }

    /// The width in pixels as the proxy is asked for it.
    pub fn as_str(&self) -> (width: &'static str)
        ensures
            width@ == self.width_spec(),
    {
        match self {
            ImageSize::Original => "0",
            ImageSize::Tiny => "100",
            ImageSize::XSmall => "400",
            ImageSize::Small => "600",
            ImageSize::Medium => "800",
            ImageSize::Large => "1000",
        }
    }
}

/// A content identifier found in a URL, by its canonical text, and the path
/// below it.
#[derive(Debug, Clone)]
pub struct IpfsMatch {
    /// The canonical text of the content identifier
    pub cid: String,
    /// The path within the content, empty for the content as a whole
    pub path: String,
}

impl View for IpfsMatch {
    type V = (Seq<char>, Seq<char>);

    open spec fn view(&self) -> (Seq<char>, Seq<char>) {
        (self.cid@, self.path@)
    }
}

/// What the search for a content identifier has come to: nothing yet, one
/// match, or an error where the URL names different contents.
pub type Heuristic = Result<Option<IpfsMatch>, ()>;

/// What the search has come to, as plain values.
pub open spec fn found(state: Heuristic) -> Result<Option<(Seq<char>, Seq<char>)>, ()> {
    match state {
        Ok(Some(m)) => Ok(Some(m@)),
        Ok(None) => Ok(None),
        Err(()) => Err(()),
    }
}

/// The search after one more match: the first match is kept, the same match
/// again changes nothing, and a different one makes the URL ambiguous, which
/// it then stays.
pub open spec fn advance(
    state: Result<Option<(Seq<char>, Seq<char>)>, ()>,
    value: (Seq<char>, Seq<char>),
) -> Result<Option<(Seq<char>, Seq<char>)>, ()> {
    match state {
        Ok(None) => Ok(Some(value)),
        Ok(Some(v)) => if v == value {
            state
        } else {
            Err(())
        },
        Err(()) => Err(()),
    }
}

/// Take one more match into the search.
pub fn advance_heuristic(state: &mut Heuristic, value: IpfsMatch)
    ensures
        found(*final(state)) == advance(found(*old(state)), value@),
{
    let same = match state {
        // We found a match
        Ok(None) => None,
        // We found two matches: identical ones change nothing, differing ones
        // make the URL ambiguous
        Ok(Some(v)) => Some(
            str_eq(v.cid.as_str(), value.cid.as_str()) && str_eq(
                v.path.as_str(),
                value.path.as_str(),
            ),
        ),
        Err(()) => Some(true),
    };
    match same {
        None => *state = Ok(Some(value)),
        Some(true) => (),
        Some(false) => *state = Err(()),
    }
}

/// A part of a URL that may hold a content identifier, and the position of
/// the path segment that follows it, if it belongs to the path.
#[derive(Debug)]
pub struct Candidate {
    /// The text of the part
    pub text: String,
    /// How many path segments to skip to reach what lies below the part
    pub index: Option<usize>,
}

impl View for Candidate {
    type V = (Seq<char>, Option<usize>);

    open spec fn view(&self) -> (Seq<char>, Option<usize>) {
        (self.text@, self.index)
    }
}

/// The views of a list of texts.
pub open spec fn texts(list: Vec<String>) -> Seq<Seq<char>> {
    list@.map_values(|text: String| text@)
}

/// The domain name of a URL, empty where its host is none.
pub open spec fn domain_text(parts: UrlParts) -> Seq<char> {
    match parts.domain {
        Some(name) => name@,
        None => Seq::<char>::empty(),
    }
}

/// The candidates that make up the part of a URL before its path: the
/// scheme, the labels of the domain, the username and the password.
pub open spec fn authority_candidates(parts: UrlParts) -> Seq<(Seq<char>, Option<usize>)> {
    seq![(parts.scheme@, Some(0usize))] + split_spec(domain_text(parts), '.').map_values(
        |label: Seq<char>| (label, Some(0usize)),
    ) + seq![(parts.username@, Some(0usize))] + match parts.password {
        Some(password) => seq![(password@, Some(0usize))],
        None => Seq::empty(),
    }
}

/// The candidates that make up the path of a URL: the path as a whole, and
/// each of its segments with the position of the segment after it.
pub open spec fn path_candidates(parts: UrlParts) -> Seq<(Seq<char>, Option<usize>)> {
    seq![(parts.path@, None::<usize>)] + match parts.segments {
        Some(segments) => Seq::new(
            segments@.len(),
            |i: int| (segments@[i]@, Some((i + 1) as usize)),
        ),
        None => Seq::empty(),
    }
}

/// The candidates that make up the part of a URL after its path: the query,
/// the fragment, and the name and the value of each pair of the query.
pub open spec fn trailing_candidates(parts: UrlParts) -> Seq<(Seq<char>, Option<usize>)> {
    (match parts.query {
        Some(query) => seq![(query@, Some(0usize))],
        None => Seq::empty(),
    }) + (match parts.fragment {
        Some(fragment) => seq![(fragment@, Some(0usize))],
        None => Seq::empty(),
    }) + pair_candidates(parts.pairs@)
}

/// The name and the value of each pair, in their order.
pub open spec fn pair_candidates(pairs: Seq<(String, String)>) -> Seq<(Seq<char>, Option<usize>)>
    decreases pairs.len(),
{
    if pairs.len() == 0 {
        Seq::empty()
    } else {
        pair_candidates(pairs.drop_last()) + seq![
            (pairs.last().0@, Some(0usize)),
            (pairs.last().1@, Some(0usize)),
        ]
    }
}

/// Every part of a URL that may hold a content identifier, in the order in
/// which the parts are searched.
pub open spec fn candidates(parts: UrlParts) -> Seq<(Seq<char>, Option<usize>)> {
    authority_candidates(parts) + path_candidates(parts) + trailing_candidates(parts)
}

/// The views of a list of candidates.
pub open spec fn candidate_views(list: Vec<Candidate>) -> Seq<(Seq<char>, Option<usize>)> {
    list@.map_values(|candidate: Candidate| candidate@)
}

/// List every part of a URL that may hold a content identifier.
pub fn visit_url(parts: &UrlParts) -> (visited: Vec<Candidate>)
    ensures
        candidate_views(visited) == candidates(*parts),
{
    let mut visited: Vec<Candidate> = Vec::new();
    visited.push(Candidate { text: parts.scheme.clone(), index: Some(0) });
    let labels = match &parts.domain {
        Some(name) => split(name.as_str(), '.'),
        None => split("", '.'),
    };
    proof {
        reveal_strlit("");
        assert(""@ =~= Seq::<char>::empty());
    }
    let ghost label_views = split_spec(domain_text(*parts), '.');
    assert(texts(labels) == label_views);
    let mut i: usize = 0;
    while i < labels.len()
        invariant
            i <= labels@.len(),
            texts(labels) == label_views,
            candidate_views(visited) =~= seq![(parts.scheme@, Some(0usize))]
                + label_views.take(i as int).map_values(
                |label: Seq<char>| (label, Some(0usize)),
            ),
        decreases labels@.len() - i,
    {
        assert(texts(labels)[i as int] == labels@[i as int]@);
        let ghost prev = candidate_views(visited);
        visited.push(Candidate { text: labels[i].clone(), index: Some(0) });
        proof {
            let tag = |label: Seq<char>| (label, Some(0usize));
            assert(candidate_views(visited) =~= prev.push((labels@[i as int]@, Some(0usize))));
            assert(label_views.take(i + 1).map_values(tag) =~= label_views.take(
                i as int,
            ).map_values(tag).push(tag(label_views[i as int])));
        }
        i += 1;
    }
    assert(label_views.take(i as int) == label_views);
    visited.push(Candidate { text: parts.username.clone(), index: Some(0) });
    if let Some(password) = &parts.password {
        visited.push(Candidate { text: password.clone(), index: Some(0) });
    }
    assert(candidate_views(visited) =~= authority_candidates(*parts));

    visited.push(Candidate { text: parts.path.clone(), index: None });
    if let Some(segments) = &parts.segments {
        let mut k: usize = 0;
        while k < segments.len()
            invariant
                k <= segments@.len(),
                candidate_views(visited) =~= authority_candidates(*parts) + seq![
                    (parts.path@, None::<usize>),
                ] + Seq::new(k as nat, |i: int| (segments@[i]@, Some((i + 1) as usize))),
            decreases segments@.len() - k,
        {
            let ghost prev = candidate_views(visited);
            visited.push(Candidate { text: segments[k].clone(), index: Some(k + 1) });
            proof {
                let nth = |i: int| (segments@[i]@, Some((i + 1) as usize));
                assert(candidate_views(visited) =~= prev.push(
                    (segments@[k as int]@, Some((k + 1) as usize)),
                ));
                assert(Seq::new((k + 1) as nat, nth) =~= Seq::new(k as nat, nth).push(
                    nth(k as int),
                ));
            }
            k += 1;
        }
    }
    assert(candidate_views(visited) =~= authority_candidates(*parts) + path_candidates(*parts));

    let ghost head = candidate_views(visited);
    if let Some(query) = &parts.query {
        visited.push(Candidate { text: query.clone(), index: Some(0) });
    }
    if let Some(fragment) = &parts.fragment {
        visited.push(Candidate { text: fragment.clone(), index: Some(0) });
    }
    let ghost before_pairs = candidate_views(visited);
    let mut p: usize = 0;
    while p < parts.pairs.len()
        invariant
            p <= parts.pairs@.len(),
            candidate_views(visited) =~= before_pairs + pair_candidates(
                parts.pairs@.take(p as int),
            ),
        decreases parts.pairs@.len() - p,
    {
        proof {
            let upto = parts.pairs@.take(p + 1);
            assert(upto.drop_last() == parts.pairs@.take(p as int));
            assert(upto.last() == parts.pairs@[p as int]);
        }
        let ghost prev = candidate_views(visited);
        visited.push(Candidate { text: parts.pairs[p].0.clone(), index: Some(0) });
        visited.push(Candidate { text: parts.pairs[p].1.clone(), index: Some(0) });
        assert(candidate_views(visited) =~= prev + seq![
            (parts.pairs@[p as int].0@, Some(0usize)),
            (parts.pairs@[p as int].1@, Some(0usize)),
        ]);
        p += 1;
    }
    assert(parts.pairs@.take(p as int) == parts.pairs@);
    assert(candidate_views(visited) =~= head + trailing_candidates(*parts));
    visited
}

/// The segments of a path from the one at `from` on, joined by slashes.
pub open spec fn join_from(segments: Seq<Seq<char>>, from: int) -> Seq<char>
    decreases segments.len() - from,
{
    if from < 0 || from >= segments.len() {
        Seq::empty()
    } else if from == segments.len() - 1 {
        segments[from]
    } else {
        segments[from] + seq!['/'] + join_from(segments, from + 1)
    }
}

/// The segments from the one at `upto` back to the one at `from`, joined by
/// slashes: what has been joined of `join_from(segments, from)` once the
/// segment before `upto` is in.
pub open spec fn joined_upto(segments: Seq<Seq<char>>, from: int, upto: int) -> Seq<char>
    decreases upto - from,
{
    if upto <= from {
        Seq::empty()
    } else if upto == from + 1 {
        segments[from]
    } else {
        joined_upto(segments, from, upto - 1) + seq!['/'] + segments[upto - 1]
    }
}

/// A join up to `upto` is the first segment, and then the join of the rest.
proof fn lemma_join_split(segments: Seq<Seq<char>>, from: int, upto: int)
    requires
        0 <= from < upto <= segments.len(),
    ensures
        joined_upto(segments, from, upto) == if upto == from + 1 {
            segments[from]
        } else {
            segments[from] + seq!['/'] + joined_upto(segments, from + 1, upto)
        },
        upto == segments.len() ==> joined_upto(segments, from, upto) == join_from(segments, from),
    decreases upto - from,
{
    if upto > from + 1 {
        lemma_join_split(segments, from, upto - 1);
        if upto - 1 > from + 1 {
            assert(joined_upto(segments, from, upto) =~= segments[from] + seq!['/'] + (
            joined_upto(segments, from + 1, upto - 1) + seq!['/'] + segments[upto - 1]));
        } else {
            assert(joined_upto(segments, from, upto) =~= segments[from] + seq!['/']
                + segments[upto - 1]);
        }
        if upto == segments.len() {
            lemma_join_split(segments, from + 1, upto);
        }
    }
}

/// The path below a candidate: the path segments from the candidate's index
/// on, joined by slashes, and nothing for a candidate outside the path or a
/// URL without path segments.
pub open spec fn path_below(index: Option<usize>, segments: Option<Vec<String>>) -> Seq<char> {
    match (index, segments) {
        (Some(i), Some(list)) => join_from(texts(list), i as int),
        _ => Seq::empty(),
    }
}

/// The path below a candidate.
pub fn slice_path(index: Option<usize>, segments: &Option<Vec<String>>) -> (path: String)
    ensures
        path@ == path_below(index, *segments),
{
    let mut path = String::new();
    match (index, segments) {
        (Some(from), Some(list)) => {
            if from < list.len() {
                let mut k: usize = from;
                proof {
                    reveal_strlit("/");
                    assert("/"@ =~= seq!['/']);
                }
                while k < list.len()
                    invariant
                        from <= k <= list@.len(),
                        from < list@.len(),
                        "/"@ == seq!['/'],
                        path@ == joined_upto(texts(*list), from as int, k as int),
                    decreases list@.len() - k,
                {
                    if k > from {
                        path.append("/");
                    }
                    path.append(list[k].as_str());
                    assert(texts(*list)[k as int] == list@[k as int]@);
                    assert(path@ =~= joined_upto(texts(*list), from as int, k + 1));
                    k += 1;
                }
                proof {
                    lemma_join_split(texts(*list), from as int, list@.len() as int);
                }
            }
            path
        },
        _ => path,
    }
}

/// The canonical text of the content identifier that a text parses to, `None`
/// where it parses to none.
pub uninterp spec fn cid_of(text: Seq<char>) -> Option<Seq<char>>;

/// `Cid::from_str` and the `Display` of the identifier that comes of it.
/// Trusted: the same text holds the same identifier or none.
#[verifier::external_body]
fn parse_cid(text: &str) -> (cid: Option<String>)
    ensures
        match cid {
            Some(canonical) => cid_of(text@) == Some(canonical@),
            None => cid_of(text@) is None,
        },
{
    text.parse::<cid::Cid>().ok().map(|cid| cid.to_string())
}

/// What the search comes to over a list of candidates, taken one by one: each
/// that holds a content identifier is a match, of that identifier and the path
/// below the candidate.
pub open spec fn search(
    state: Result<Option<(Seq<char>, Seq<char>)>, ()>,
    list: Seq<(Seq<char>, Option<usize>)>,
    segments: Option<Vec<String>>,
) -> Result<Option<(Seq<char>, Seq<char>)>, ()>
    decreases list.len(),
{
    if list.len() == 0 {
        state
    } else {
        let earlier = search(state, list.drop_last(), segments);
        match cid_of(list.last().0) {
            Some(cid) => advance(earlier, (cid, path_below(list.last().1, segments))),
            None => earlier,
        }
    }
}

/// Search a URL for the one content identifier it names.
pub fn find_ipfs(parts: &UrlParts) -> (state: Heuristic)
    ensures
        found(state) == search(Ok(None), candidates(*parts), parts.segments),
{
    let visited = visit_url(parts);
    let mut state: Heuristic = Ok(None);
    let mut i: usize = 0;
    while i < visited.len()
        invariant
            i <= visited@.len(),
            candidate_views(visited) == candidates(*parts),
            found(state) == search(
                Ok(None),
                candidates(*parts).take(i as int),
                parts.segments,
            ),
        decreases visited@.len() - i,
    {
        proof {
            let upto = candidates(*parts).take(i + 1);
            assert(upto.drop_last() == candidates(*parts).take(i as int));
            assert(upto.last() == candidate_views(visited)[i as int]);
            assert(candidate_views(visited)[i as int] == visited@[i as int]@);
        }
        if let Some(cid) = parse_cid(visited[i].text.as_str()) {
            let path = slice_path(visited[i].index, &parts.segments);
            advance_heuristic(&mut state, IpfsMatch { cid, path });
        }
        i += 1;
    }
    assert(candidates(*parts).take(i as int) == candidates(*parts));
    state
}

/// Why a URL could not be rewritten onto the proxy.
#[derive(Debug)]
pub enum ProxyError {
    /// The address of the asset CDN is no URL
    InvalidCdn(url::ParseError),
    /// The address of the asset CDN cannot be the base of another URL
    InvalidUrl,
}

/// A proxy that serves IPFS content from an asset CDN
#[derive(Debug)]
pub struct AssetProxy {
    assets_cdn: Url,
}

/// The CDN's address with a match and a width written into it: the segments
/// `ipfs` and the content identifier appended to its path, then the width and,
/// unless it is empty, the path appended to its query. `None` where the
/// address cannot be a base.
pub open spec fn rewritten(cdn: Seq<char>, m: (Seq<char>, Seq<char>), width: Seq<char>) -> Option<
    Seq<char>,
> {
    match with_segments(cdn, seq!["ipfs"@, m.0]) {
        Some(extended) => {
            let sized = with_query_pair(extended, "width"@, width);
            if m.1.len() == 0 {
                Some(sized)
            } else {
                Some(with_query_pair(sized, "path"@, m.1))
            }
        },
        None => None,
    }
}

impl AssetProxy {
    /// The serialization of the CDN's address as it stands.
    pub closed spec fn cdn_text(&self) -> Seq<char> {
        url_text(self.assets_cdn)
    }

    /// A proxy onto the CDN at `cdn`.
    pub fn new(cdn: &str) -> (r: Result<AssetProxy, ProxyError>)
        ensures
            match r {
                Ok(proxy) => parsed(cdn@) == Some(proxy.cdn_text()),
                Err(e) => e is InvalidCdn && parsed(cdn@) is None,
            },
    {
        match parse(cdn) {
            Ok(assets_cdn) => Ok(AssetProxy { assets_cdn }),
            Err(e) => Err(ProxyError::InvalidCdn(e)),
        }
    }

    /// Rewrite a URL that names exactly one IPFS content identifier onto the
    /// asset CDN, asking for the image at `size`, or at its natural size where
    /// none is given.
    ///
    /// A URL that names no content identifier, or different ones, is none of
    /// the proxy's: `None` comes back and the proxy stays as it is. Otherwise
    /// the rewritten URL comes back, and stays behind as the CDN's address for
    /// the rewrites that follow.
    pub fn proxy_ipfs_image(&mut self, url: &Url, size: Option<ImageSize>) -> (r: Result<
        Option<Url>,
        ProxyError,
    >)
        ensures
            match search(Ok(None), candidates(parts_of(*url)), parts_of(*url).segments) {
                Ok(Some(m)) => match rewritten(
                    old(self).cdn_text(),
                    m,
                    match size {
                        Some(given) => given.width_spec(),
                        None => ImageSize::Original.width_spec(),
                    },
                ) {
                    Some(text) => r matches Ok(Some(proxied)) && url_text(proxied) == text
                        && final(self).cdn_text() == text,
                    None => r matches Err(ProxyError::InvalidUrl) && final(self).cdn_text() == old(
                        self,
                    ).cdn_text(),
                },
                _ => r matches Ok(None) && final(self).cdn_text() == old(self).cdn_text(),
            },
    {
        let read = parts(url);
        let res = find_ipfs(&read);
        if let Ok(Some(m)) = res {
            let mut segments: Vec<String> = Vec::new();
            segments.push("ipfs".to_owned());
            segments.push(m.cid.clone());
            assert(texts(segments) =~= seq!["ipfs"@, m.cid@]);
            if !extend_path(&mut self.assets_cdn, &segments) {
                return Err(ProxyError::InvalidUrl);
            }
            let width = match size {
                Some(given) => given.as_str(),
                None => ImageSize::Original.as_str(),
            };
            append_pair(&mut self.assets_cdn, "width", width);
            if !m.path.as_str().is_empty() {
                append_pair(&mut self.assets_cdn, "path", m.path.as_str());
            }
            return Ok(Some(clone_url(&self.assets_cdn)));
        }
        Ok(None)
    }
}

} // verus!
