use reverse_proxy::config::default_config;
use reverse_proxy::handler::{error_status, prepare_upstream_request, response_status, ProxyError};
use reverse_proxy::rewrite::{effective_target, rewrite_target, upstream_uri_string};
use reverse_proxy::tls::{generate_identity, proxy_subject_names};
use reverse_proxy::upstream::{greeting_line, repeated_greeting};
use reverse_proxy::{HTTPS_PORT, HTTP_PORT, UPSTREAM_PORT};

#[test]
fn default_config_is_fixed_loopback_upstream() {
    let c = default_config();
    assert_eq!(c.scheme, "http");
    assert_eq!(c.authority, "127.0.0.1:3000");
}

#[test]
fn listener_ports_are_fixed() {
    assert_eq!(HTTP_PORT, 4080);
    assert_eq!(HTTPS_PORT, 4443);
    assert_eq!(UPSTREAM_PORT, 3000);
}

#[test]
fn effective_target_prefers_path_and_query() {
    assert_eq!(effective_target("/anything", Some("/anything?x=1")), "/anything?x=1");
}

#[test]
fn effective_target_falls_back_to_path() {
    assert_eq!(effective_target("/anything", None), "/anything");
}

#[test]
fn upstream_uri_string_is_prefix_then_target() {
    let c = default_config();
    assert_eq!(upstream_uri_string(&c, "/anything?x=1"), "http://127.0.0.1:3000/anything?x=1");
    assert_eq!(upstream_uri_string(&c, "/"), "http://127.0.0.1:3000/");
}

#[test]
fn rewrite_preserves_path_and_query_exactly() {
    let c = default_config();
    let uri = rewrite_target(&c, "/anything", Some("/anything?x=1")).unwrap();
    assert_eq!(uri.to_string(), "http://127.0.0.1:3000/anything?x=1");
    assert_eq!(uri.path_and_query().unwrap().as_str(), "/anything?x=1");
}

#[test]
fn rewrite_authority_is_never_client_supplied() {
    let c = default_config();
    let uri = rewrite_target(&c, "/", Some("/")).unwrap();
    assert_eq!(uri.scheme_str(), Some("http"));
    assert_eq!(uri.authority().map(|a| a.as_str()), Some("127.0.0.1:3000"));
    let other = rewrite_target(&c, "/other", None).unwrap();
    assert_eq!(other.authority().map(|a| a.as_str()), Some("127.0.0.1:3000"));
}

#[test]
fn rewrite_rejects_an_invalid_target() {
    let c = default_config();
    assert!(rewrite_target(&c, "/a b", None).is_err());
}

#[test]
fn prepare_upstream_request_maps_rewrite_failure() {
    let c = default_config();
    let r = prepare_upstream_request(&c, "/a b", None);
    assert_eq!(r.err(), Some(ProxyError::Rewrite));
    let ok = prepare_upstream_request(&c, "/anything", Some("/anything?x=1")).unwrap();
    assert_eq!(ok.to_string(), "http://127.0.0.1:3000/anything?x=1");
}

#[test]
fn error_statuses_are_client_visible() {
    assert_eq!(error_status(&ProxyError::Forward), 400);
    assert_eq!(error_status(&ProxyError::Rewrite), 502);
}

#[test]
fn response_status_relays_upstream_verbatim() {
    assert_eq!(response_status(&Ok(200)), 200);
    assert_eq!(response_status(&Ok(503)), 503);
}

#[test]
fn unreachable_upstream_fails_fast_with_error_status() {
    assert_eq!(response_status(&Err(ProxyError::Forward)), 400);
    assert_eq!(response_status(&Err(ProxyError::Rewrite)), 502);
}

#[test]
fn certificate_subject_names_are_fixed() {
    let names = proxy_subject_names();
    assert_eq!(names, vec!["pattern.reverse.proxy".to_string(), "localhost".to_string()]);
}

#[test]
fn generated_identity_keeps_names_and_holds_der() {
    let id = generate_identity(proxy_subject_names()).unwrap();
    assert_eq!(id.subject_names, proxy_subject_names());
    assert!(!id.cert_der.is_empty());
    assert!(!id.key_der.is_empty());
}

#[test]
fn greeting_line_is_exact() {
    assert_eq!(greeting_line(), "Hello, world!\n");
}

#[test]
fn streamed_body_repeats_the_greeting() {
    assert_eq!(repeated_greeting(0), "");
    assert_eq!(repeated_greeting(1), "Hello, world!\n");
    assert_eq!(repeated_greeting(3), "Hello, world!\nHello, world!\nHello, world!\n");
    assert!(repeated_greeting(5).starts_with("Hello, world!\n"));
}
