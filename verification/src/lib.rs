//! A minimal reverse proxy core: rewrite an inbound request's target to a
//! fixed upstream origin, decide the response status for each forwarding
//! outcome, and describe the TLS identity the encrypted listener presents.

use vstd::prelude::*;

pub mod config;
pub mod handler;
pub mod rewrite;
pub mod tls;
pub mod upstream;

verus! {

/// Port the plaintext front-end listener binds.
pub const HTTP_PORT: u16 = 4080;

/// Port the TLS front-end listener binds.
pub const HTTPS_PORT: u16 = 4443;

/// Port the demo upstream origin binds on loopback.
pub const UPSTREAM_PORT: u16 = 3000;

} // verus!
