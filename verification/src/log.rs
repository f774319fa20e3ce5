//! Rendering of the one log line each disposition emits.
//!
//! The line carries the timestamp, the original request URI, the
//! disposition's label and its detail: the forward target for a proxied
//! request, the location for a redirect.  Producing the timestamp and
//! writing the line to the sink are the host's business; rendering the
//! bytes is pure and stated here.
use crate::response::SPACE;
use crate::response::spec_render_uri;
use crate::response::render_uri;
use crate::router::Disposition;
use crate::router::opt_bytes;
use crate::text::append_bytes;
use crate::text::ascii_of;
use crate::text::ascii_str_bytes;
use vstd::prelude::*;

verus! {

pub const LEFT_BRACKET: u8 = 91;

/// The part every log line begins with: the bracketed timestamp and the
/// original request URI.
pub open spec fn spec_log_head(timestamp: Seq<u8>, request_uri: Seq<u8>) -> Seq<u8> {
    seq![LEFT_BRACKET] + timestamp + ascii_of("] "@) + request_uri + seq![SPACE]
}

/// The whole log line for a disposition: the head, then the label and
/// detail — `Proxy` with the forward target, `HTTP/301 Location:` with
/// the location, `Debug`, or `HTTP/404`.
pub open spec fn spec_log_line(
    timestamp: Seq<u8>,
    request_uri: Seq<u8>,
    d: Disposition,
    target_base_url: Seq<u8>,
) -> Seq<u8> {
    match d {
        Disposition::Proxy { path, query } => spec_log_head(timestamp, request_uri) + ascii_of(
            "Proxy "@,
        ) + target_base_url + spec_render_uri(path@, opt_bytes(query)),
        Disposition::Redirect { location } => spec_log_head(timestamp, request_uri) + ascii_of(
            "HTTP/301 Location: "@,
        ) + location@,
        Disposition::DebugEcho => spec_log_head(timestamp, request_uri) + ascii_of("Debug"@),
        Disposition::NotFound => spec_log_head(timestamp, request_uri) + ascii_of("HTTP/404"@),
    }
}

fn log_head(timestamp: &[u8], request_uri: &[u8]) -> (r: Vec<u8>)
    ensures
        r@ == spec_log_head(timestamp@, request_uri@),
{
    let sep = "] ";
    proof {
        reveal_strlit("] ");
        assert(vstd::string::is_ascii(sep));
    }
    let mut r: Vec<u8> = Vec::new();
    r.push(LEFT_BRACKET);
    proof {
        assert(r@ =~= seq![LEFT_BRACKET]);
    }
    append_bytes(&mut r, timestamp);
    append_bytes(&mut r, ascii_str_bytes(sep).as_slice());
    append_bytes(&mut r, request_uri);
    r.push(SPACE);
    proof {
        assert(r@ =~= spec_log_head(timestamp@, request_uri@));
    }
    r
}

/// Renders the log line for one disposition.
pub fn render_log_line(
    timestamp: &[u8],
    request_uri: &[u8],
    d: &Disposition,
    target_base_url: &[u8],
) -> (r: Vec<u8>)
    ensures
        r@ == spec_log_line(timestamp@, request_uri@, *d, target_base_url@),
{
    let mut r = log_head(timestamp, request_uri);
    match d {
        Disposition::Proxy { path, query } => {
            let label = "Proxy ";
            proof {
                reveal_strlit("Proxy ");
                assert(vstd::string::is_ascii(label));
            }
            append_bytes(&mut r, ascii_str_bytes(label).as_slice());
            append_bytes(&mut r, target_base_url);
            let uri = render_uri(path.as_slice(), query);
            append_bytes(&mut r, uri.as_slice());
            proof {
                assert(r@ =~= spec_log_line(timestamp@, request_uri@, *d, target_base_url@));
            }
        },
        Disposition::Redirect { location } => {
            let label = "HTTP/301 Location: ";
            proof {
                reveal_strlit("HTTP/301 Location: ");
                assert(vstd::string::is_ascii(label));
            }
            append_bytes(&mut r, ascii_str_bytes(label).as_slice());
            append_bytes(&mut r, location.as_slice());
            proof {
                assert(r@ =~= spec_log_line(timestamp@, request_uri@, *d, target_base_url@));
            }
        },
        Disposition::DebugEcho => {
            let label = "Debug";
            proof {
                reveal_strlit("Debug");
                assert(vstd::string::is_ascii(label));
            }
            append_bytes(&mut r, ascii_str_bytes(label).as_slice());
            proof {
                assert(r@ =~= spec_log_line(timestamp@, request_uri@, *d, target_base_url@));
            }
        },
        Disposition::NotFound => {
            let label = "HTTP/404";
            proof {
                reveal_strlit("HTTP/404");
                assert(vstd::string::is_ascii(label));
            }
            append_bytes(&mut r, ascii_str_bytes(label).as_slice());
            proof {
                assert(r@ =~= spec_log_line(timestamp@, request_uri@, *d, target_base_url@));
            }
        },
    }
    r
}

} // verus!
