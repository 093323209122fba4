use hub_core::assets::{
    advance_heuristic, find_ipfs, slice_path, visit_url, AssetProxy, Heuristic, ImageSize,
    IpfsMatch, ProxyError,
};
use hub_core::web::UrlParts;
use url::Url;

const CID_V0: &str = "QmYwAPJzv5CZsnA625s3Xf2nemtYgPpHdWEz79ojWnPbdG";
const CID_V1: &str = "bafybeigdyrzt5sfp7udm7hu76uh7y26nf3efuylqabf3oclgtqy55fbzdi";

fn found(cid: &str, path: &str) -> IpfsMatch {
    IpfsMatch { cid: cid.into(), path: path.into() }
}

fn parts(url: &str) -> UrlParts {
    let url = Url::parse(url).unwrap();
    UrlParts {
        scheme: url.scheme().to_owned(),
        domain: url.domain().map(str::to_owned),
        username: url.username().to_owned(),
        password: url.password().map(str::to_owned),
        path: url.path().to_owned(),
        segments: url.path_segments().map(|s| s.map(str::to_owned).collect()),
        query: url.query().map(str::to_owned),
        fragment: url.fragment().map(str::to_owned),
        pairs: url
            .query_pairs()
            .map(|(k, v)| (k.into_owned(), v.into_owned()))
            .collect(),
    }
}

fn view(state: &Heuristic) -> Result<Option<(&str, &str)>, ()> {
    match state {
        Ok(Some(m)) => Ok(Some((m.cid.as_str(), m.path.as_str()))),
        Ok(None) => Ok(None),
        Err(()) => Err(()),
    }
}

#[test]
fn image_sizes() {
    assert_eq!(ImageSize::Original.as_str(), "0");
    assert_eq!(ImageSize::Tiny.as_str(), "100");
    assert_eq!(ImageSize::XSmall.as_str(), "400");
    assert_eq!(ImageSize::Small.as_str(), "600");
    assert_eq!(ImageSize::Medium.as_str(), "800");
    assert_eq!(ImageSize::Large.as_str(), "1000");
}

#[test]
fn heuristic_keeps_one_match() {
    let mut state: Heuristic = Ok(None);
    advance_heuristic(&mut state, found("a", "x"));
    assert_eq!(view(&state), Ok(Some(("a", "x"))));
    advance_heuristic(&mut state, found("a", "x"));
    assert_eq!(view(&state), Ok(Some(("a", "x"))));
    advance_heuristic(&mut state, found("a", "y"));
    assert_eq!(view(&state), Err(()));
    advance_heuristic(&mut state, found("a", "x"));
    assert_eq!(view(&state), Err(()));
    let mut state: Heuristic = Ok(Some(found("a", "x")));
    advance_heuristic(&mut state, found("b", "x"));
    assert_eq!(view(&state), Err(()));
}

#[test]
fn url_parts_are_visited_in_order() {
    let visited = visit_url(&parts("https://user:pw@a.b.example/p/q?k=v&e#frag"));
    let listed: Vec<(&str, Option<usize>)> =
        visited.iter().map(|c| (c.text.as_str(), c.index)).collect();
    assert_eq!(
        listed,
        vec![
            ("https", Some(0)),
            ("a", Some(0)),
            ("b", Some(0)),
            ("example", Some(0)),
            ("user", Some(0)),
            ("pw", Some(0)),
            ("/p/q", None),
            ("p", Some(1)),
            ("q", Some(2)),
            ("k=v&e", Some(0)),
            ("frag", Some(0)),
            ("k", Some(0)),
            ("v", Some(0)),
            ("e", Some(0)),
            ("", Some(0)),
        ]
    );
}

#[test]
fn url_without_host_is_visited() {
    let visited = visit_url(&parts("data:text/plain,hello"));
    let listed: Vec<(&str, Option<usize>)> =
        visited.iter().map(|c| (c.text.as_str(), c.index)).collect();
    assert_eq!(
        listed,
        vec![("data", Some(0)), ("", Some(0)), ("", Some(0)), ("text/plain,hello", None)]
    );
}

#[test]
fn path_below_a_segment() {
    let segments = Some(vec!["a".to_string(), "b".to_string(), "c".to_string()]);
    assert_eq!(slice_path(Some(0), &segments), "a/b/c");
    assert_eq!(slice_path(Some(1), &segments), "b/c");
    assert_eq!(slice_path(Some(2), &segments), "c");
    assert_eq!(slice_path(Some(3), &segments), "");
    assert_eq!(slice_path(Some(9), &segments), "");
    assert_eq!(slice_path(None, &segments), "");
    assert_eq!(slice_path(Some(0), &None), "");
}

#[test]
fn cid_in_path_is_found() {
    let state = find_ipfs(&parts(&format!("https://example.com/{CID_V0}/images/1.png")));
    assert_eq!(view(&state), Ok(Some((CID_V0, "images/1.png"))));
    let state = find_ipfs(&parts(&format!("https://example.com/{CID_V0}")));
    assert_eq!(view(&state), Ok(Some((CID_V0, ""))));
}

#[test]
fn cid_in_host_is_found() {
    let state = find_ipfs(&parts(&format!("https://{CID_V1}.ipfs.example.com/images/1.png")));
    assert_eq!(view(&state), Ok(Some((CID_V1, "images/1.png"))));
}

#[test]
fn url_without_cid() {
    let state = find_ipfs(&parts("https://example.com/images/1.png?x=y"));
    assert_eq!(view(&state), Ok(None));
}

#[test]
fn differing_cids_are_ambiguous() {
    let state = find_ipfs(&parts(&format!("https://{CID_V1}.example.com/{CID_V0}")));
    assert_eq!(view(&state), Err(()));
}

#[test]
fn proxy_rewrites_ipfs_url() {
    let mut proxy = AssetProxy::new("https://assets.example.com").unwrap();
    let url = Url::parse(&format!("https://example.com/{CID_V0}/images/1.png")).unwrap();
    let proxied = proxy.proxy_ipfs_image(&url, Some(ImageSize::Small)).unwrap().unwrap();
    assert_eq!(
        proxied.as_str(),
        format!("https://assets.example.com/ipfs/{CID_V0}?width=600&path=images%2F1.png")
    );
}

#[test]
fn proxy_defaults_to_natural_size() {
    let mut proxy = AssetProxy::new("https://assets.example.com/cdn").unwrap();
    let url = Url::parse(&format!("https://example.com/{CID_V0}")).unwrap();
    let proxied = proxy.proxy_ipfs_image(&url, None).unwrap().unwrap();
    assert_eq!(
        proxied.as_str(),
        format!("https://assets.example.com/cdn/ipfs/{CID_V0}?width=0")
    );
}

#[test]
fn proxy_leaves_other_urls_alone() {
    let mut proxy = AssetProxy::new("https://assets.example.com").unwrap();
    let url = Url::parse("https://example.com/images/1.png").unwrap();
    assert_eq!(proxy.proxy_ipfs_image(&url, None).unwrap(), None);
    // The proxy's address is as it was.
    let url = Url::parse(&format!("https://example.com/{CID_V0}")).unwrap();
    let proxied = proxy.proxy_ipfs_image(&url, None).unwrap().unwrap();
    assert_eq!(
        proxied.as_str(),
        format!("https://assets.example.com/ipfs/{CID_V0}?width=0")
    );
}

#[test]
fn proxy_keeps_what_it_rewrote() {
    let mut proxy = AssetProxy::new("https://assets.example.com").unwrap();
    let url = Url::parse(&format!("https://example.com/{CID_V0}")).unwrap();
    proxy.proxy_ipfs_image(&url, None).unwrap().unwrap();
    let again = proxy.proxy_ipfs_image(&url, Some(ImageSize::Tiny)).unwrap().unwrap();
    assert_eq!(
        again.as_str(),
        format!("https://assets.example.com/ipfs/{CID_V0}/ipfs/{CID_V0}?width=0&width=100")
    );
}

#[test]
fn proxy_needs_a_base_url() {
    assert!(matches!(AssetProxy::new("not a url"), Err(ProxyError::InvalidCdn(_))));
    let mut proxy = AssetProxy::new("mailto:cdn@example.com").unwrap();
    let url = Url::parse(&format!("https://example.com/{CID_V0}")).unwrap();
    assert!(matches!(
        proxy.proxy_ipfs_image(&url, None),
        Err(ProxyError::InvalidUrl)
    ));
}
