use prefix_proxy::config::ProxyConfig;
use prefix_proxy::headers::Headers;
use prefix_proxy::response::{
    debug_echo_response, finish_proxy_response, not_found_response, redirect_response,
    render_uri, OutgoingResponse,
};
use prefix_proxy::text::{bytes_eq, find_first, replace_first, starts_with};

fn bv(s: &str) -> Vec<u8> {
    s.as_bytes().to_vec()
}

fn headers_of(entries: &[(&str, &str)]) -> Headers {
    let mut h = Headers::new();
    for (n, v) in entries {
        h.append(bv(n), bv(v));
    }
    h
}

#[test]
fn configured_cache_control_is_not_injected_over_an_origin_value() {
    let upstream = OutgoingResponse {
        status: 200,
        headers: headers_of(&[("Cache-Control", "max-age=60")]),
        body: bv("payload"),
    };
    let cache = Some(bv("no-cache"));
    let finished = finish_proxy_response(&cache, &upstream);
    assert_eq!(finished.status, 200);
    assert_eq!(finished.body, bv("payload"));
    assert_eq!(
        finished.headers.entries,
        vec![(bv("Cache-Control"), bv("max-age=60"))]
    );
}

#[test]
fn cache_control_lookup_is_case_insensitive() {
    let upstream = OutgoingResponse {
        status: 200,
        headers: headers_of(&[("cache-control", "max-age=60")]),
        body: Vec::new(),
    };
    let cache = Some(bv("no-cache"));
    let finished = finish_proxy_response(&cache, &upstream);
    assert_eq!(
        finished.headers.entries,
        vec![(bv("cache-control"), bv("max-age=60"))]
    );
}

#[test]
fn configured_cache_control_is_injected_when_absent() {
    let upstream = OutgoingResponse {
        status: 200,
        headers: headers_of(&[("Content-Length", "7")]),
        body: bv("payload"),
    };
    let cache = Some(bv("no-cache"));
    let finished = finish_proxy_response(&cache, &upstream);
    assert_eq!(
        finished.headers.entries,
        vec![
            (bv("Content-Length"), bv("7")),
            (bv("Cache-Control"), bv("no-cache")),
        ]
    );
}

#[test]
fn injection_is_idempotent_on_values() {
    let h = headers_of(&[("Content-Length", "7")]);
    let once = h.inject_default(b"Cache-Control", b"no-cache");
    let twice = once.inject_default(b"Cache-Control", b"no-cache");
    assert_eq!(once.entries, twice.entries);
}

#[test]
fn without_configured_cache_control_headers_pass_through() {
    let upstream = OutgoingResponse {
        status: 503,
        headers: headers_of(&[("Retry-After", "1")]),
        body: Vec::new(),
    };
    let finished = finish_proxy_response(&None, &upstream);
    assert_eq!(finished.status, 503);
    assert_eq!(finished.headers.entries, vec![(bv("Retry-After"), bv("1"))]);
}

#[test]
fn header_name_lookup_folds_only_ascii_letters() {
    let h = headers_of(&[("X-Thing", "a")]);
    assert!(h.contains_name(b"x-thing"));
    assert!(h.contains_name(b"X-THING"));
    assert!(!h.contains_name(b"x_thing"));
    assert!(h.contains_name_exact(b"X-Thing"));
    assert!(!h.contains_name_exact(b"x-thing"));
}

#[test]
fn config_construction_trims_slashes() {
    let cfg = ProxyConfig::new(b"http://upstream//", b"/api/", &Some(bv("no-cache")));
    assert_eq!(cfg.target_base_url, bv("http://upstream"));
    assert_eq!(cfg.source_prefix, bv("api"));
    assert_eq!(cfg.default_cache_control, Some(bv("no-cache")));

    let all_slashes = ProxyConfig::new(b"http://u", b"////", &None);
    assert_eq!(all_slashes.source_prefix, bv(""));
    assert_eq!(all_slashes.default_cache_control, None);
}

#[test]
fn replace_first_touches_only_the_first_occurrence() {
    assert_eq!(replace_first(b"abcabc", b"bc", b"X"), bv("aXabc"));
    assert_eq!(replace_first(b"abc", b"zz", b"X"), bv("abc"));
    assert_eq!(replace_first(b"/api/x", b"/api/", b"/"), bv("/x"));
}

#[test]
fn byte_utilities_behave() {
    assert!(bytes_eq(b"abc", b"abc"));
    assert!(!bytes_eq(b"abc", b"abd"));
    assert!(!bytes_eq(b"abc", b"ab"));
    assert!(starts_with(b"abc", b"ab"));
    assert!(starts_with(b"abc", b""));
    assert!(!starts_with(b"abc", b"abcd"));
    assert!(!starts_with(b"abc", b"bc"));
    assert_eq!(find_first(b"xabab", b"ab"), Some(1));
    assert_eq!(find_first(b"xyz", b"ab"), None);
}

#[test]
fn render_uri_keeps_query_bytes() {
    assert_eq!(render_uri(b"/p", &Some(bv("a=%2F&b=?"))), bv("/p?a=%2F&b=?"));
    assert_eq!(render_uri(b"/p", &None), bv("/p"));
}

#[test]
fn fixed_responses_have_their_documented_shape() {
    let r = redirect_response(b"/api/");
    assert_eq!(r.status, 301);
    assert_eq!(r.headers.entries, vec![(bv("Location"), bv("/api/"))]);
    assert!(r.body.is_empty());

    let nf = not_found_response();
    assert_eq!(nf.status, 404);
    assert!(nf.headers.entries.is_empty());
    assert!(!nf.body.is_empty());

    let echo = debug_echo_response(b"GET", b"/x", &None, &Headers::new(), b"-");
    assert_eq!(echo.status, 200);
    assert_eq!(
        echo.headers.entries,
        vec![(bv("Content-Type"), bv("text/plain; charset=utf-8"))]
    );
    assert_eq!(echo.body, bv("GET /x\nbody: -\n"));
}
