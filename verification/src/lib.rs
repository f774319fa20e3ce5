//! A small verified core for a single-hop HTTP reverse proxy: classifying a
//! request path against a configured source prefix, rewriting the path for
//! forwarding, building the fixed redirect / debug-echo / not-found
//! responses, and conditionally injecting a default `Cache-Control` header
//! into proxied responses.
pub mod config;
pub mod headers;
pub mod log;
pub mod paths;
pub mod response;
pub mod router;
pub mod text;
