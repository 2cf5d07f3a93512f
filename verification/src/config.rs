//! The fixed upstream origin that every inbound request is forwarded to.
//!
//! The scheme and authority of the upstream target are configuration, decided
//! once when the proxy is constructed. They are never taken from an inbound
//! request, which is what makes the proxy immune to host-header redirection.

use vstd::prelude::*;
use vstd::string::*;

verus! {

/// Where proxied requests are sent: a scheme (such as `http`) and an
/// authority (host and port, such as `127.0.0.1:3000`).
pub struct UpstreamConfig {
    pub scheme: String,
    pub authority: String,
}

impl UpstreamConfig {
    /// The fixed leading part of every upstream target:
    /// `<scheme>://<authority>`. A function of the configuration alone.
    pub open spec fn prefix_spec(self) -> Seq<char> {
        self.scheme@ + "://"@ + self.authority@
    }
}

/// The upstream origin this proxy forwards to: plaintext HTTP on loopback
/// port 3000.
pub fn default_config() -> (c: UpstreamConfig)
    ensures
        c.scheme@ == "http"@,
        c.authority@ == "127.0.0.1:3000"@,
{
    UpstreamConfig {
        scheme: String::from_str("http"),
        authority: String::from_str("127.0.0.1:3000"),
    }
}

} // verus!
