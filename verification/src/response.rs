//! The responses the proxy produces itself, and the post-processing of a
//! proxied response.
//!
//! The redirect, not-found and debug-echo responses are fixed values; the
//! only response that depends on upstream work is the proxied one, whose
//! headers may receive a default `Cache-Control` entry.  The not-found
//! response deliberately sets no `Content-Type` header, while the debug
//! echo does: that asymmetry is part of the behaviour.
use crate::headers::Headers;
use crate::headers::spec_inject;
use crate::text::append_bytes;
use crate::text::ascii_of;
use crate::text::ascii_str_bytes;
use crate::text::clone_bytes;
use vstd::prelude::*;

verus! {

pub const SPACE: u8 = 32;
pub const NEWLINE: u8 = 10;
pub const COLON: u8 = 58;
pub const QUESTION_MARK: u8 = 63;

/// The name of the header the injector fills in, compared
/// case-insensitively.
pub open spec fn cache_control_name() -> Seq<u8> {
    ascii_of("Cache-Control"@)
}

/// The name of the redirect response's one header.
pub open spec fn location_name() -> Seq<u8> {
    ascii_of("Location"@)
}

/// The name of the debug echo's one header.
pub open spec fn content_type_name() -> Seq<u8> {
    ascii_of("Content-Type"@)
}

/// The debug echo's content type.
pub open spec fn text_plain_utf8() -> Seq<u8> {
    ascii_of("text/plain; charset=utf-8"@)
}

/// The fixed body of the not-found response.
pub open spec fn not_found_html() -> Seq<u8> {
    ascii_of(
        "<!DOCTYPE html><html><head><title>Not Found</title></head><body><h1>Not Found</h1><p>Sorry, the page you are looking for cannot be found</p></body></html>"@,
    )
}

/// The bytes of the `Cache-Control` header name.
pub fn cache_control_name_bytes() -> (r: Vec<u8>)
    ensures
        r@ == cache_control_name(),
{
    let s = "Cache-Control";
    proof {
        reveal_strlit("Cache-Control");
        assert(vstd::string::is_ascii(s));
    }
    ascii_str_bytes(s)
}

/// A response as handed back to the transport: status, headers, body.
pub struct OutgoingResponse {
    pub status: u16,
    pub headers: Headers,
    pub body: Vec<u8>,
}

/// The path with its query string appended after `?`, when there is one.
pub open spec fn spec_render_uri(path: Seq<u8>, query: Option<Seq<u8>>) -> Seq<u8> {
    match query {
        Option::Some(q) => path + seq![QUESTION_MARK] + q,
        Option::None => path,
    }
}

/// One line per header: `name: value`.
pub open spec fn spec_render_headers(h: Seq<(Seq<u8>, Seq<u8>)>) -> Seq<u8>
    decreases h.len(),
{
    if h.len() == 0 {
        Seq::<u8>::empty()
    } else {
        spec_render_headers(h.drop_last()) + h.last().0 + seq![COLON, SPACE] + h.last().1
            + seq![NEWLINE]
    }
}

/// The textual dump the debug echo returns: the request line, the headers,
/// and a representation of the body.
pub open spec fn spec_render_request(
    method: Seq<u8>,
    path: Seq<u8>,
    query: Option<Seq<u8>>,
    h: Seq<(Seq<u8>, Seq<u8>)>,
    body_repr: Seq<u8>,
) -> Seq<u8> {
    method + seq![SPACE] + spec_render_uri(path, query) + seq![NEWLINE] + spec_render_headers(h)
        + ascii_of("body: "@) + body_repr + seq![NEWLINE]
}

/// The path with its query string appended after `?`, when there is one.
pub fn render_uri(path: &[u8], query: &Option<Vec<u8>>) -> (r: Vec<u8>)
    ensures
        r@ == spec_render_uri(
            path@,
            match query {
                Option::Some(q) => Option::Some(q@),
                Option::None => Option::None,
            },
        ),
{
    let mut r: Vec<u8> = Vec::new();
    append_bytes(&mut r, path);
    proof {
        assert(r@ =~= path@);
    }
    match query {
        Option::Some(q) => {
            r.push(QUESTION_MARK);
            append_bytes(&mut r, q.as_slice());
            proof {
                assert(r@ =~= path@ + seq![QUESTION_MARK] + q@);
            }
        },
        Option::None => {},
    }
    r
}

/// One line per header: `name: value`.
fn render_headers(h: &Headers) -> (r: Vec<u8>)
    ensures
        r@ == spec_render_headers(h@),
{
    let mut r: Vec<u8> = Vec::new();
    let n = h.entries.len();
    let mut i: usize = 0;
    proof {
        assert(r@ =~= spec_render_headers(h@.subrange(0, 0)));
    }
    while i < n
        invariant
            n == h.entries@.len(),
            n == h@.len(),
            i <= n,
            r@ == spec_render_headers(h@.subrange(0, i as int)),
        decreases n - i,
    {
        let ghost before = r@;
        append_bytes(&mut r, h.entries[i].0.as_slice());
        r.push(COLON);
        r.push(SPACE);
        append_bytes(&mut r, h.entries[i].1.as_slice());
        r.push(NEWLINE);
        proof {
            let t = h@.subrange(0, i + 1);
            assert(t.drop_last() =~= h@.subrange(0, i as int));
            assert(t.last() == h@[i as int]);
            assert(h@[i as int].0 == h.entries@[i as int].0@);
            assert(h@[i as int].1 == h.entries@[i as int].1@);
            assert(r@ =~= spec_render_headers(t));
        }
        i = i + 1;
    }
    proof {
        assert(h@.subrange(0, n as int) =~= h@);
    }
    r
}

/// The permanent redirect to the prefix path: status 301, a single
/// `Location` header, empty body.
pub fn redirect_response(location: &[u8]) -> (r: OutgoingResponse)
    ensures
        r.status == 301,
        r.headers@ == seq![(location_name(), location@)],
        r.body@ == Seq::<u8>::empty(),
{
    let s = "Location";
    proof {
        reveal_strlit("Location");
        assert(vstd::string::is_ascii(s));
    }
    let name = ascii_str_bytes(s);
    let mut headers = Headers::new();
    headers.append(name, vstd::slice::slice_to_vec(location));
    proof {
        assert(headers@ =~= seq![(location_name(), location@)]);
    }
    OutgoingResponse { status: 301, headers, body: Vec::new() }
}

/// The fixed not-found response: status 404, no headers (in particular no
/// `Content-Type`), the minimal HTML body.
pub fn not_found_response() -> (r: OutgoingResponse)
    ensures
        r.status == 404,
        r.headers@ == Seq::<(Seq<u8>, Seq<u8>)>::empty(),
        r.body@ == not_found_html(),
{
    let s =
        "<!DOCTYPE html><html><head><title>Not Found</title></head><body><h1>Not Found</h1><p>Sorry, the page you are looking for cannot be found</p></body></html>";
    proof {
        reveal_strlit(
            "<!DOCTYPE html><html><head><title>Not Found</title></head><body><h1>Not Found</h1><p>Sorry, the page you are looking for cannot be found</p></body></html>",
        );
        assert(vstd::string::is_ascii(s));
    }
    let body = ascii_str_bytes(s);
    OutgoingResponse { status: 404, headers: Headers::new(), body }
}

/// The debug echo: status 200, `Content-Type: text/plain; charset=utf-8`,
/// and a body that dumps the request verbatim.  The request is never
/// forwarded on this path.
pub fn debug_echo_response(
    method: &[u8],
    path: &[u8],
    query: &Option<Vec<u8>>,
    headers: &Headers,
    body_repr: &[u8],
) -> (r: OutgoingResponse)
    ensures
        r.status == 200,
        r.headers@ == seq![(content_type_name(), text_plain_utf8())],
        r.body@ == spec_render_request(
            method@,
            path@,
            match query {
                Option::Some(q) => Option::Some(q@),
                Option::None => Option::None,
            },
            headers@,
            body_repr@,
        ),
{
    let ct = "Content-Type";
    let tp = "text/plain; charset=utf-8";
    let bl = "body: ";
    proof {
        reveal_strlit("Content-Type");
        reveal_strlit("text/plain; charset=utf-8");
        reveal_strlit("body: ");
        assert(vstd::string::is_ascii(ct));
        assert(vstd::string::is_ascii(tp));
        assert(vstd::string::is_ascii(bl));
    }
    let mut out_headers = Headers::new();
    out_headers.append(ascii_str_bytes(ct), ascii_str_bytes(tp));
    proof {
        assert(out_headers@ =~= seq![(content_type_name(), text_plain_utf8())]);
    }
    let mut body: Vec<u8> = Vec::new();
    append_bytes(&mut body, method);
    body.push(SPACE);
    let uri = render_uri(path, query);
    append_bytes(&mut body, uri.as_slice());
    body.push(NEWLINE);
    let hs = render_headers(headers);
    append_bytes(&mut body, hs.as_slice());
    append_bytes(&mut body, ascii_str_bytes(bl).as_slice());
    append_bytes(&mut body, body_repr);
    body.push(NEWLINE);
    proof {
        assert(body@ =~= spec_render_request(
            method@,
            path@,
            match query {
                Option::Some(q) => Option::Some(q@),
                Option::None => Option::None,
            },
            headers@,
            body_repr@,
        ));
    }
    OutgoingResponse { status: 200, headers: out_headers, body }
}

/// Post-processes a proxied response: when a default `Cache-Control`
/// value is configured, it is injected unless the origin already sent
/// one; status and body pass through untouched.  The upstream response is
/// never mutated: the result is a fresh value.
pub fn finish_proxy_response(cache: &Option<Vec<u8>>, upstream: &OutgoingResponse) -> (r:
    OutgoingResponse)
    ensures
        r.status == upstream.status,
        r.body@ == upstream.body@,
        match cache {
            Option::Some(v) => r.headers@ == spec_inject(upstream.headers@, cache_control_name(), v@),
            Option::None => r.headers@ == upstream.headers@,
        },
{
    let headers = match cache {
        Option::Some(v) => {
            let name = cache_control_name_bytes();
            upstream.headers.inject_default(name.as_slice(), v.as_slice())
        },
        Option::None => upstream.headers.duplicate(),
    };
    OutgoingResponse { status: upstream.status, headers, body: clone_bytes(&upstream.body) }
}

} // verus!
