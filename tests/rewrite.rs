use hyper::header::{HeaderMap, HeaderValue};
use preview_proxy::rewrite::{
    get_preview_url, preview_request_parts, preview_url_text, RewriteError, PREVIEW_HOST,
    SESSION_HEADER,
};

fn headers_with(pairs: &[(&'static str, &'static str)]) -> HeaderMap<HeaderValue> {
    let mut m = HeaderMap::new();
    for (k, v) in pairs {
        m.append(*k, HeaderValue::from_static(v));
    }
    m
}

#[test]
fn preview_url_keeps_path_and_query() {
    assert_eq!(
        preview_url_text("/foo?x=1"),
        "https://rawhttp.cloudflareworkers.com/foo?x=1"
    );
    assert_eq!(preview_url_text(""), "https://rawhttp.cloudflareworkers.com");
    assert_eq!(
        preview_url_text("/a/b/c?q=%20&r"),
        "https://rawhttp.cloudflareworkers.com/a/b/c?q=%20&r"
    );
}

#[test]
fn get_preview_url_parses_backend_uri() {
    let uri = get_preview_url("/foo?x=1").unwrap();
    assert_eq!(uri.scheme_str(), Some("https"));
    assert_eq!(uri.host(), Some(PREVIEW_HOST));
    assert_eq!(uri.path(), "/foo");
    assert_eq!(uri.query(), Some("x=1"));
}

#[test]
fn get_preview_url_rejects_bad_path() {
    assert!(get_preview_url("/with space").is_err());
}

#[test]
fn rewrite_sets_host_and_session() {
    let mut m = headers_with(&[("host", "localhost:8787"), ("accept", "*/*")]);
    let uri = preview_request_parts(&mut m, "/foo?x=1", "abc").unwrap();
    assert_eq!(uri.to_string(), "https://rawhttp.cloudflareworkers.com/foo?x=1");
    let hosts: Vec<_> = m.get_all("host").iter().collect();
    assert_eq!(hosts, vec!["rawhttp.cloudflareworkers.com"]);
    let ids: Vec<_> = m.get_all(SESSION_HEADER).iter().collect();
    assert_eq!(ids, vec!["abc"]);
    assert_eq!(m.get("accept").unwrap(), "*/*");
    assert_eq!(m.keys_len(), 3);
}

#[test]
fn rewrite_replaces_every_earlier_session_value() {
    let mut m = headers_with(&[("cf-ew-preview", "old1"), ("cf-ew-preview", "old2")]);
    preview_request_parts(&mut m, "/", "new").unwrap();
    let ids: Vec<_> = m.get_all("cf-ew-preview").iter().collect();
    assert_eq!(ids, vec!["new"]);
}

#[test]
fn rewrite_keeps_untargeted_headers() {
    let mut m = headers_with(&[
        ("x-custom", "one"),
        ("x-custom", "two"),
        ("cookie", "a=b"),
        ("host", "localhost"),
    ]);
    preview_request_parts(&mut m, "/p", "id").unwrap();
    let custom: Vec<_> = m.get_all("x-custom").iter().collect();
    assert_eq!(custom, vec!["one", "two"]);
    assert_eq!(m.get("cookie").unwrap(), "a=b");
    assert!(m.get("content-length").is_none());
}

#[test]
fn session_id_is_a_snapshot() {
    let mut id = String::from("first");
    let mut m = HeaderMap::new();
    preview_request_parts(&mut m, "/", &id).unwrap();
    id.clear();
    id.push_str("second");
    assert_eq!(m.get("cf-ew-preview").unwrap(), "first");
    let mut m2 = HeaderMap::new();
    preview_request_parts(&mut m2, "/", &id).unwrap();
    assert_eq!(m2.get("cf-ew-preview").unwrap(), "second");
    assert_eq!(m.get("cf-ew-preview").unwrap(), "first");
}

#[test]
fn invalid_session_id_leaves_headers() {
    let mut m = headers_with(&[("host", "localhost")]);
    let r = preview_request_parts(&mut m, "/", "bad\nid");
    assert_eq!(r.unwrap_err(), RewriteError::InvalidSessionId);
    assert_eq!(m.get("host").unwrap(), "localhost");
    assert!(m.get("cf-ew-preview").is_none());
}

#[test]
fn invalid_session_id_wins_over_invalid_uri() {
    let mut m = HeaderMap::new();
    let r = preview_request_parts(&mut m, "/a b", "\u{7f}");
    assert_eq!(r.unwrap_err(), RewriteError::InvalidSessionId);
}

#[test]
fn invalid_uri_leaves_headers() {
    let mut m = headers_with(&[("host", "localhost")]);
    let r = preview_request_parts(&mut m, "/a b", "abc");
    assert_eq!(r.unwrap_err(), RewriteError::InvalidUri);
    assert_eq!(m.get("host").unwrap(), "localhost");
    assert_eq!(m.keys_len(), 1);
}

#[test]
fn session_id_with_tab_and_non_ascii_is_accepted() {
    let mut m = HeaderMap::new();
    preview_request_parts(&mut m, "/", "a\tb\u{e9}").unwrap();
    assert_eq!(m.get("cf-ew-preview").unwrap().as_bytes(), "a\tb\u{e9}".as_bytes());
}

#[test]
fn empty_session_id_is_accepted() {
    let mut m = HeaderMap::new();
    preview_request_parts(&mut m, "/", "").unwrap();
    assert_eq!(m.get("cf-ew-preview").unwrap(), "");
}

#[test]
fn rewritten_uri_has_backend_authority_and_same_path() {
    let mut m = HeaderMap::new();
    let uri = preview_request_parts(&mut m, "/a/b?c=d&e", "id").unwrap();
    assert_eq!(uri.authority().unwrap().as_str(), PREVIEW_HOST);
    assert_eq!(uri.path_and_query().unwrap().as_str(), "/a/b?c=d&e");
    assert_eq!(uri.scheme_str(), Some("https"));
}

#[test]
fn rewrite_succeeds_on_a_large_header_map() {
    let mut m = HeaderMap::new();
    for i in 0..1000 {
        let name = hyper::header::HeaderName::from_bytes(format!("x-h{}", i).as_bytes()).unwrap();
        m.insert(name, HeaderValue::from_static("v"));
    }
    preview_request_parts(&mut m, "/", "abc").unwrap();
    assert_eq!(m.keys_len(), 1002);
    assert_eq!(m.get("x-h999").unwrap(), "v");
}
