//! The request router: one request comes in, is classified, and leaves as
//! exactly one of four dispositions — proxy, redirect, debug echo, or
//! not found.
//!
//! The router itself is pure: it decides, and builds the three responses
//! that need no upstream work.  The proxy disposition carries the
//! rewritten path and the untouched query; performing the outbound call
//! is the transport's job, and its response is post-processed with
//! [`crate::response::finish_proxy_response`].
use crate::config::ProxyConfig;
use crate::headers::Headers;
use crate::headers::spec_contains_name_exact;
use crate::paths::MatchResult;
use crate::paths::classify;
use crate::paths::rewrite;
use crate::paths::spec_classify;
use crate::paths::spec_prefix_path;
use crate::paths::spec_rewrite_path;
use crate::response::OutgoingResponse;
use crate::response::content_type_name;
use crate::response::debug_echo_response;
use crate::response::location_name;
use crate::response::not_found_html;
use crate::response::not_found_response;
use crate::response::redirect_response;
use crate::response::spec_render_request;
use crate::response::text_plain_utf8;
use crate::text::ascii_of;
use crate::text::ascii_str_bytes;
use vstd::prelude::*;

verus! {

/// The request header whose mere presence switches an unmatched request
/// to the debug echo.  The name is matched case-sensitively, byte for
/// byte.
pub open spec fn debug_marker_name() -> Seq<u8> {
    ascii_of("X-Proxy-Debug"@)
}

/// The bytes of the debug marker header name.
pub fn debug_marker_name_bytes() -> (r: Vec<u8>)
    ensures
        r@ == debug_marker_name(),
{
    let s = "X-Proxy-Debug";
    proof {
        reveal_strlit("X-Proxy-Debug");
        assert(vstd::string::is_ascii(s));
    }
    ascii_str_bytes(s)
}

/// One inbound request, as the router sees it.  The body stays with the
/// transport; a textual representation of it is handed in where the debug
/// echo needs one.
pub struct IncomingRequest {
    pub method: Vec<u8>,
    pub path: Vec<u8>,
    pub query: Option<Vec<u8>>,
    pub headers: Headers,
}

/// The view of an optional byte vector.
pub open spec fn opt_bytes(o: Option<Vec<u8>>) -> Option<Seq<u8>> {
    match o {
        Option::Some(v) => Option::Some(v@),
        Option::None => Option::None,
    }
}

/// What is to happen to one request.  Computed once, consumed at once.
pub enum Disposition {
    /// Forward to the target, with the prefix path stripped from the path
    /// and the query untouched.
    Proxy { path: Vec<u8>, query: Option<Vec<u8>> },
    /// Answer 301 with this location.
    Redirect { location: Vec<u8> },
    /// Answer 200 with a dump of the request; never forward.
    DebugEcho,
    /// Answer the fixed 404.
    NotFound,
}

/// What the router must hand back for one request: the disposition that
/// the classification, the rewriting rule and the debug marker prescribe.
pub open spec fn spec_route(config: ProxyConfig, req: IncomingRequest, d: Disposition) -> bool {
    match spec_classify(req.path@, config.source_prefix@) {
        MatchResult::Redirect => match d {
            Disposition::Redirect { location } => location@ == spec_prefix_path(
                config.source_prefix@,
            ),
            _ => false,
        },
        MatchResult::ProxyMatch => match d {
            Disposition::Proxy { path, query } => path@ == spec_rewrite_path(
                req.path@,
                spec_prefix_path(config.source_prefix@),
            ) && opt_bytes(query) == opt_bytes(req.query),
            _ => false,
        },
        MatchResult::NoMatch => if spec_contains_name_exact(req.headers@, debug_marker_name()) {
            d matches Disposition::DebugEcho
        } else {
            d matches Disposition::NotFound
        },
    }
}

/// Classifies the request and computes its disposition: an exact match of
/// `/<prefix>` redirects to the prefix path, a path under the prefix path
/// is proxied with the first occurrence of the prefix path replaced by
/// `/`, and anything else echoes the request when the debug marker header
/// is present and is the fixed 404 otherwise.
pub fn route(config: &ProxyConfig, req: &IncomingRequest) -> (d: Disposition)
    ensures
        spec_route(*config, *req, d),
{
    match classify(req.path.as_slice(), config) {
        MatchResult::Redirect => {
            let location = config.prefix_path();
            Disposition::Redirect { location }
        },
        MatchResult::ProxyMatch => {
            let pp = config.prefix_path();
            proof {
                assert(pp@.len() >= 1);
            }
            let (path, query) = rewrite(req.path.as_slice(), &req.query, pp.as_slice());
            Disposition::Proxy { path, query }
        },
        MatchResult::NoMatch => {
            let marker = debug_marker_name_bytes();
            if req.headers.contains_name_exact(marker.as_slice()) {
                Disposition::DebugEcho
            } else {
                Disposition::NotFound
            }
        },
    }
}

/// What the response to a locally answered disposition must look like:
/// the proxy disposition yields none (its response comes from the
/// transport), the redirect a bodiless 301 with the location, the debug
/// echo a plain-text 200 dumping the request, and not-found the fixed
/// 404 with no headers.
pub open spec fn spec_respond_local(
    req: IncomingRequest,
    d: Disposition,
    body_repr: Seq<u8>,
    r: Option<OutgoingResponse>,
) -> bool {
    match d {
        Disposition::Proxy { path, query } => r matches Option::None,
        Disposition::Redirect { location } => match r {
            Option::Some(resp) => resp.status == 301 && resp.headers@ == seq![
                (location_name(), location@),
            ] && resp.body@ == Seq::<u8>::empty(),
            Option::None => false,
        },
        Disposition::DebugEcho => match r {
            Option::Some(resp) => resp.status == 200 && resp.headers@ == seq![
                (content_type_name(), text_plain_utf8()),
            ] && resp.body@ == spec_render_request(
                req.method@,
                req.path@,
                opt_bytes(req.query),
                req.headers@,
                body_repr,
            ),
            Option::None => false,
        },
        Disposition::NotFound => match r {
            Option::Some(resp) => resp.status == 404 && resp.headers@ == Seq::<
                (Seq<u8>, Seq<u8>),
            >::empty() && resp.body@ == not_found_html(),
            Option::None => false,
        },
    }
}

/// Builds the response for a disposition the proxy answers by itself.
pub fn respond_local(req: &IncomingRequest, d: &Disposition, body_repr: &[u8]) -> (r: Option<
    OutgoingResponse,
>)
    ensures
        spec_respond_local(*req, *d, body_repr@, r),
{
    match d {
        Disposition::Proxy { path, query } => Option::None,
        Disposition::Redirect { location } => Option::Some(redirect_response(location.as_slice())),
        Disposition::DebugEcho => Option::Some(
            debug_echo_response(
                req.method.as_slice(),
                req.path.as_slice(),
                &req.query,
                &req.headers,
                body_repr,
            ),
        ),
        Disposition::NotFound => Option::Some(not_found_response()),
    }
}

} // verus!
