//! The Proxy Handler's decisions for one inbound request: rewrite the
//! target, and turn the single forwarding attempt's outcome into the status
//! relayed to the client.
//!
//! Each request is handled independently; nothing here is shared across
//! requests, so concurrent requests cannot affect one another's decisions.

use vstd::prelude::*;
use crate::config::UpstreamConfig;
use crate::rewrite::{
    effective_target_spec, parsed_uri_of, rewrite_target, rewritten_spec, uri_parse_ok,
    RewriteError,
};

verus! {

/// Why a proxied request failed.
#[derive(Clone, Copy, PartialEq, Eq, Structural, Debug)]
pub enum ProxyError {
    /// The inbound request could not be rewritten to a valid upstream URI —
    /// an internal invariant violation, surfaced as a gateway-class status.
    Rewrite,
    /// Communicating with the upstream origin failed: connection refused,
    /// reset, timeout or protocol error from the forwarding client.
    Forward,
}

/// The client-visible status each failure is surfaced with.
pub open spec fn error_status_spec(e: ProxyError) -> u16 {
    match e {
        ProxyError::Rewrite => 502,
        ProxyError::Forward => 400,
    }
}

/// The status code for a failed request: always a client-visible error
/// status, never a success.
pub fn error_status(e: &ProxyError) -> (s: u16)
    ensures
        s == error_status_spec(*e),
        400 <= s < 600,
{
    match e {
        ProxyError::Rewrite => 502,
        ProxyError::Forward => 400,
    }
}

/// The handler's first step: rewrite the inbound target onto the fixed
/// upstream origin. On success the URI handed to the forwarding client is
/// the parse of exactly the rewritten string; a rewrite failure becomes
/// [`ProxyError::Rewrite`].
pub fn prepare_upstream_request(
    config: &UpstreamConfig,
    path: &str,
    path_and_query: Option<&str>,
) -> (r: Result<hyper::Uri, ProxyError>)
    ensures
        r is Ok <==> uri_parse_ok(
            rewritten_spec(
                *config,
                effective_target_spec(path@, path_and_query.deep_view()),
            ),
        ),
        r matches Ok(u) ==> u == parsed_uri_of(
            rewritten_spec(
                *config,
                effective_target_spec(path@, path_and_query.deep_view()),
            ),
        ),
        r matches Err(e) ==> e == ProxyError::Rewrite,
{
    match rewrite_target(config, path, path_and_query) {
        Ok(u) => Ok(u),
        Err(RewriteError) => Err(ProxyError::Rewrite),
    }
}

/// The handler's last step: the status relayed to the client for the single
/// forwarding attempt's outcome. A successful forward relays the upstream
/// status verbatim (its headers and body stream pass through uninspected);
/// a failure fails fast with that failure's error status. One attempt per
/// inbound request — no retry.
pub fn response_status(outcome: &Result<u16, ProxyError>) -> (s: u16)
    ensures
        *outcome matches Ok(upstream) ==> s == upstream,
        *outcome matches Err(e) ==> s == error_status_spec(e) && 400 <= s < 600,
{
    match outcome {
        Ok(upstream) => *upstream,
        Err(e) => error_status(e),
    }
}

} // verus!
