//! The Request Rewriter: map an inbound request's path-and-query to a fully
//! qualified target on the fixed upstream origin.
//!
//! Only the path and query of the inbound request pass through; the scheme
//! and authority of the result always come from the configuration.

use vstd::prelude::*;
use vstd::string::*;
use crate::config::UpstreamConfig;

verus! {

/// The part of the inbound request that passes through to the upstream
/// target: the full path-and-query when the inbound URI carries one, else
/// the bare path (the fallback for a malformed start line).
pub open spec fn effective_target_spec(
    path: Seq<char>,
    path_and_query: Option<Seq<char>>,
) -> Seq<char> {
    match path_and_query {
        Some(pq) => pq,
        None => path,
    }
}

/// The full upstream target for one inbound request: the configured
/// scheme-and-authority prefix, then the inbound target, unchanged.
pub open spec fn rewritten_spec(config: UpstreamConfig, target: Seq<char>) -> Seq<char> {
    config.prefix_spec() + target
}

/// Choose what passes through: the inbound path-and-query when present,
/// the bare path otherwise.
pub fn effective_target<'a>(path: &'a str, path_and_query: Option<&'a str>) -> (t: &'a str)
    ensures
        t@ == effective_target_spec(path@, path_and_query.deep_view()),
{
    match path_and_query {
        Some(pq) => pq,
        None => path,
    }
}

/// Build the upstream target string `<scheme>://<authority><target>`.
pub fn upstream_uri_string(config: &UpstreamConfig, target: &str) -> (u: String)
    ensures
        u@ == rewritten_spec(*config, target@),
{
    let mut u = String::from_str(config.scheme.as_str());
    u.append("://");
    u.append(config.authority.as_str());
    u.append(target);
    u
}

/// `http`'s URI type, reached through hyper's re-export. It is opaque here:
/// the rewriter builds the target as a string and this type carries the
/// parsed form to the transport.
#[verifier::external_type_specification]
#[verifier::external_body]
pub struct ExUri(hyper::Uri);

/// `http`'s URI parse error, opaque here and mapped to [`RewriteError`].
#[verifier::external_type_specification]
#[verifier::external_body]
pub struct ExInvalidUri(hyper::http::uri::InvalidUri);

/// Whether `http`'s URI grammar accepts a string.
pub uninterp spec fn uri_parse_ok(s: Seq<char>) -> bool;

/// The URI that `http`'s parser yields for an accepted string.
pub uninterp spec fn parsed_uri_of(s: Seq<char>) -> hyper::Uri;

/// Relies on hyper::Uri::try_from (http's URI parser): the parser's verdict
/// and its result are functions of the string alone.
#[verifier::external_body]
fn parse_uri(s: &str) -> (r: Result<hyper::Uri, hyper::http::uri::InvalidUri>)
    ensures
        r is Ok <==> uri_parse_ok(s@),
        r matches Ok(u) ==> u == parsed_uri_of(s@),
{
    hyper::Uri::try_from(s)
}

/// The rewritten target is not a syntactically valid URI. This is a
/// programming-invariant violation rather than a user-facing condition; the
/// proxy handler surfaces it as a gateway-class error instead of aborting.
#[derive(Clone, Copy, PartialEq, Eq, Structural, Debug)]
pub struct RewriteError;

/// The whole rewrite for one inbound request: choose the effective target,
/// prepend the fixed upstream scheme and authority, and check that the
/// result is a syntactically valid URI. On success the returned URI is the
/// parse of exactly that rewritten string.
pub fn rewrite_target(
    config: &UpstreamConfig,
    path: &str,
    path_and_query: Option<&str>,
) -> (r: Result<hyper::Uri, RewriteError>)
    ensures
        r is Ok <==> uri_parse_ok(
            rewritten_spec(
                *config,
                effective_target_spec(path@, path_and_query.deep_view()),
            ),
        ),
        r matches Ok(u) ==> u == parsed_uri_of(
            rewritten_spec(
                *config,
                effective_target_spec(path@, path_and_query.deep_view()),
            ),
        ),
{
    let target = effective_target(path, path_and_query);
    let uri = upstream_uri_string(config, target);
    match parse_uri(uri.as_str()) {
        Ok(u) => Ok(u),
        Err(_) => Err(RewriteError),
    }
}

/// Path-and-query preservation: for every configuration and every inbound
/// request, the upstream target is exactly the configured prefix followed by
/// the inbound path-and-query — stripping the prefix recovers it unchanged,
/// whatever the inbound scheme, authority or headers were.
pub proof fn lemma_path_query_preserved(
    config: UpstreamConfig,
    path: Seq<char>,
    path_and_query: Option<Seq<char>>,
)
    ensures
        rewritten_spec(config, effective_target_spec(path, path_and_query)).skip(
            config.prefix_spec().len() as int,
        ) == effective_target_spec(path, path_and_query),
{
    let p = config.prefix_spec();
    let t = effective_target_spec(path, path_and_query);
    assert((p + t).skip(p.len() as int) =~= t);
}

/// A path together with an optional query, written the way it stands in a
/// request line: `p` alone, or `p?q`.
pub open spec fn path_with_query_spec(p: Seq<char>, q: Option<Seq<char>>) -> Seq<char> {
    match q {
        Some(qs) => p + "?"@ + qs,
        None => p,
    }
}

/// Path-and-query preservation, spelled out over the path and the query:
/// for every inbound path `p` and optional query `q`, the upstream target
/// carries exactly `p` alone or `p?q` after the configured prefix.
pub proof fn lemma_path_and_query_pass_through(
    config: UpstreamConfig,
    p: Seq<char>,
    q: Option<Seq<char>>,
)
    ensures
        rewritten_spec(config, path_with_query_spec(p, q)).skip(
            config.prefix_spec().len() as int,
        ) == path_with_query_spec(p, q),
{
    lemma_path_query_preserved(config, p, Some(path_with_query_spec(p, q)));
}

/// Host-header injection immunity: the leading scheme-and-authority part of
/// the upstream target is the configured prefix, a function of the
/// configuration alone — any two inbound targets yield the same prefix.
pub proof fn lemma_authority_fixed(config: UpstreamConfig, t1: Seq<char>, t2: Seq<char>)
    ensures
        rewritten_spec(config, t1).take(config.prefix_spec().len() as int)
            == config.prefix_spec(),
        rewritten_spec(config, t1).take(config.prefix_spec().len() as int)
            == rewritten_spec(config, t2).take(config.prefix_spec().len() as int),
{
    let p = config.prefix_spec();
    assert((p + t1).take(p.len() as int) =~= p);
    assert((p + t2).take(p.len() as int) =~= p);
}

} // verus!
