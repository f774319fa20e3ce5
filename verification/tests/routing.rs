use prefix_proxy::config::ProxyConfig;
use prefix_proxy::headers::Headers;
use prefix_proxy::log::render_log_line;
use prefix_proxy::paths::{classify, MatchResult};
use prefix_proxy::router::{respond_local, route, Disposition, IncomingRequest};

fn bv(s: &str) -> Vec<u8> {
    s.as_bytes().to_vec()
}

fn config(target: &str, source: &str, cache: Option<&str>) -> ProxyConfig {
    ProxyConfig::new(
        target.as_bytes(),
        source.as_bytes(),
        &cache.map(|c| bv(c)),
    )
}

fn request(method: &str, path: &str, query: Option<&str>, headers: Headers) -> IncomingRequest {
    IncomingRequest {
        method: bv(method),
        path: bv(path),
        query: query.map(|q| bv(q)),
        headers,
    }
}

fn contains_subslice(haystack: &[u8], needle: &[u8]) -> bool {
    if needle.len() > haystack.len() {
        return false;
    }
    (0..=haystack.len() - needle.len()).any(|i| &haystack[i..i + needle.len()] == needle)
}

#[test]
fn prefix_match_is_proxied_with_prefix_stripped() {
    let cfg = config("http://upstream", "api", None);
    let req = request("GET", "/api/users", Some("id=5"), Headers::new());
    match route(&cfg, &req) {
        Disposition::Proxy { path, query } => {
            assert_eq!(path, bv("/users"));
            assert_eq!(query, Some(bv("id=5")));
        }
        _ => panic!("expected a proxy disposition"),
    }
}

#[test]
fn exact_prefix_redirects_to_prefix_path() {
    let cfg = config("http://upstream", "api", None);
    let req = request("GET", "/api", None, Headers::new());
    match route(&cfg, &req) {
        Disposition::Redirect { location } => assert_eq!(location, bv("/api/")),
        _ => panic!("expected a redirect disposition"),
    }
    let resp = respond_local(&req, &route(&cfg, &req), b"").expect("a local response");
    assert_eq!(resp.status, 301);
    assert_eq!(resp.headers.entries, vec![(bv("Location"), bv("/api/"))]);
    assert!(resp.body.is_empty());
}

#[test]
fn empty_prefix_proxies_everything_under_root() {
    let cfg = config("http://upstream", "", None);
    let req = request("GET", "/anything", None, Headers::new());
    match route(&cfg, &req) {
        Disposition::Proxy { path, query } => {
            assert_eq!(path, bv("/anything"));
            assert_eq!(query, None);
        }
        _ => panic!("expected a proxy disposition"),
    }
    let root = request("GET", "/", None, Headers::new());
    match route(&cfg, &root) {
        Disposition::Redirect { location } => assert_eq!(location, bv("/")),
        _ => panic!("expected a redirect disposition"),
    }
}

#[test]
fn unmatched_path_without_marker_is_not_found() {
    let cfg = config("http://upstream", "api", None);
    let req = request("GET", "/other", None, Headers::new());
    match route(&cfg, &req) {
        Disposition::NotFound => {}
        _ => panic!("expected the not-found disposition"),
    }
    let resp = respond_local(&req, &Disposition::NotFound, b"").expect("a local response");
    assert_eq!(resp.status, 404);
    assert!(resp.headers.entries.is_empty());
    assert_eq!(
        resp.body,
        bv("<!DOCTYPE html><html><head><title>Not Found</title></head><body><h1>Not Found</h1><p>Sorry, the page you are looking for cannot be found</p></body></html>")
    );
}

#[test]
fn unmatched_path_with_marker_is_echoed() {
    let cfg = config("http://upstream", "api", None);
    let mut headers = Headers::new();
    headers.append(bv("X-Proxy-Debug"), bv("1"));
    let req = request("GET", "/other", None, headers);
    match route(&cfg, &req) {
        Disposition::DebugEcho => {}
        _ => panic!("expected the debug echo disposition"),
    }
    let d = route(&cfg, &req);
    let resp = respond_local(&req, &d, b"<stream>").expect("a local response");
    assert_eq!(resp.status, 200);
    assert_eq!(
        resp.headers.entries,
        vec![(bv("Content-Type"), bv("text/plain; charset=utf-8"))]
    );
    assert!(contains_subslice(&resp.body, b"GET"));
    assert!(contains_subslice(&resp.body, b"/other"));
}

#[test]
fn debug_marker_name_is_case_sensitive() {
    let cfg = config("http://upstream", "api", None);
    let mut headers = Headers::new();
    headers.append(bv("x-proxy-debug"), bv("1"));
    let req = request("GET", "/other", None, headers);
    match route(&cfg, &req) {
        Disposition::NotFound => {}
        _ => panic!("a lower-cased marker must not trigger the debug echo"),
    }
}

#[test]
fn repeated_prefix_substring_is_stripped_only_once() {
    let cfg = config("http://upstream", "api", None);
    let req = request("GET", "/api/x/api/y", None, Headers::new());
    match route(&cfg, &req) {
        Disposition::Proxy { path, query } => {
            assert_eq!(path, bv("/x/api/y"));
            assert_eq!(query, None);
        }
        _ => panic!("expected a proxy disposition"),
    }
}

#[test]
fn query_is_passed_through_byte_for_byte() {
    let cfg = config("http://upstream", "api", None);
    let raw_query = "a=%2F&b=?&&c==x";
    let req = request("GET", "/api/q", Some(raw_query), Headers::new());
    match route(&cfg, &req) {
        Disposition::Proxy { query, .. } => assert_eq!(query, Some(bv(raw_query))),
        _ => panic!("expected a proxy disposition"),
    }
}

#[test]
fn classify_matches_the_three_way_rule() {
    let cfg = config("http://upstream", "api", None);
    assert_eq!(classify(b"/api/x", &cfg), MatchResult::ProxyMatch);
    assert_eq!(classify(b"/api", &cfg), MatchResult::Redirect);
    assert_eq!(classify(b"/apix", &cfg), MatchResult::NoMatch);
    assert_eq!(classify(b"/", &cfg), MatchResult::NoMatch);
    assert_eq!(classify(b"", &cfg), MatchResult::NoMatch);
}

#[test]
fn debug_echo_body_dumps_the_whole_request() {
    let cfg = config("http://upstream", "api", None);
    let mut headers = Headers::new();
    headers.append(bv("X-Proxy-Debug"), bv("1"));
    headers.append(bv("Accept"), bv("*/*"));
    let req = request("POST", "/miss", Some("k=v"), headers);
    let d = route(&cfg, &req);
    let resp = respond_local(&req, &d, b"<stream>").expect("a local response");
    assert_eq!(
        resp.body,
        bv("POST /miss?k=v\nX-Proxy-Debug: 1\nAccept: */*\nbody: <stream>\n")
    );
}

#[test]
fn proxy_disposition_has_no_local_response() {
    let cfg = config("http://upstream", "api", None);
    let req = request("GET", "/api/x", None, Headers::new());
    let d = route(&cfg, &req);
    assert!(respond_local(&req, &d, b"").is_none());
}

#[test]
fn log_lines_carry_label_and_detail() {
    let proxy = Disposition::Proxy {
        path: bv("/users"),
        query: Some(bv("id=5")),
    };
    assert_eq!(
        render_log_line(b"TS", b"/api/users?id=5", &proxy, b"http://upstream"),
        bv("[TS] /api/users?id=5 Proxy http://upstream/users?id=5")
    );
    let redirect = Disposition::Redirect { location: bv("/api/") };
    assert_eq!(
        render_log_line(b"TS", b"/api", &redirect, b"http://upstream"),
        bv("[TS] /api HTTP/301 Location: /api/")
    );
    assert_eq!(
        render_log_line(b"TS", b"/other", &Disposition::DebugEcho, b"http://upstream"),
        bv("[TS] /other Debug")
    );
    assert_eq!(
        render_log_line(b"TS", b"/other", &Disposition::NotFound, b"http://upstream"),
        bv("[TS] /other HTTP/404")
    );
}
