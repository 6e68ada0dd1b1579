use https_proxy::config::Client;
use https_proxy::config::Config;
use https_proxy::config::RawMirror;
use https_proxy::config::Server;
use https_proxy::policy::MirrorDecision;
use https_proxy::proxy::forward;
use https_proxy::proxy::make_proxy_header;
use https_proxy::proxy::stamp_proxy_header;
use https_proxy::proxy::Header;
use https_proxy::proxy::ProxyResponse;
use https_proxy::registry::MirrorRegistry;

fn header(name: &str, value: &str) -> Header {
    Header { name: name.to_owned(), value: value.to_owned() }
}

fn registry_with(uri: &str, extensions: Vec<&str>, location: &str) -> MirrorRegistry {
    let raw = RawMirror {
        uri: uri.to_owned(),
        extensions: extensions.into_iter().map(|e| e.to_owned()).collect(),
        location: location.to_owned(),
    };
    let config = Config::new(
        Server {
            addr: "127.0.0.1:443".to_owned(),
            certs_location: "certs.pem".to_owned(),
            private_key_location: "key.pem".to_owned(),
        },
        Client { ca_location: None },
        vec![("mirror0".to_owned(), raw)],
    );
    let (_, _, registry) = config.into_parts();
    registry
}

#[test]
fn proxy_header_has_exact_format_with_version() {
    let h = make_proxy_header(Some("1.2.3"));
    assert_eq!(h.name, "X-Proxy-Server");
    assert_eq!(h.value, "yes; https-proxy-rs v.1.2.3");
}

#[test]
fn proxy_header_falls_back_to_unknown() {
    let h = make_proxy_header(None);
    assert_eq!(h.value, "yes; https-proxy-rs v.unknown");
}

#[test]
fn stamping_appends_diagnostic_and_keeps_others() {
    let headers = vec![header("content-type", "text/plain"), header("etag", "abc")];
    let stamped = stamp_proxy_header(headers, Some("9"));
    assert_eq!(stamped.len(), 3);
    assert_eq!(stamped[0].name, "content-type");
    assert_eq!(stamped[0].value, "text/plain");
    assert_eq!(stamped[1].name, "etag");
    assert_eq!(stamped[1].value, "abc");
    assert_eq!(stamped[2].name, "X-Proxy-Server");
    assert_eq!(stamped[2].value, "yes; https-proxy-rs v.9");
}

#[test]
fn stamping_overwrites_preexisting_diagnostic() {
    let headers = vec![header("X-Proxy-Server", "spoofed"), header("etag", "abc")];
    let stamped = stamp_proxy_header(headers, None);
    assert_eq!(stamped.len(), 2);
    assert_eq!(stamped[0].name, "etag");
    assert_eq!(stamped[1].name, "X-Proxy-Server");
    assert_eq!(stamped[1].value, "yes; https-proxy-rs v.unknown");
}

#[test]
fn forward_preserves_status_headers_and_body() {
    let registry = registry_with("example.com", vec!["gz"], "/root");
    let response = ProxyResponse {
        status: 203,
        headers: vec![header("content-length", "3")],
        body: vec![1, 2, 3],
    };
    let (out, decision) = forward(
        &registry,
        Some("example.com"),
        "/data/archive.tar.gz",
        response,
        Some("2.0"),
    );
    assert_eq!(out.status, 203);
    assert_eq!(out.body, vec![1, 2, 3]);
    assert_eq!(out.headers.len(), 2);
    assert_eq!(out.headers[0].name, "content-length");
    assert_eq!(out.headers[0].value, "3");
    assert_eq!(out.headers[1].name, "X-Proxy-Server");
    assert_eq!(out.headers[1].value, "yes; https-proxy-rs v.2.0");
    match decision {
        MirrorDecision::Save { directory, file_name } => {
            assert_eq!(directory, "/root/data/");
            assert_eq!(file_name, "archive.tar.gz");
        }
        MirrorDecision::Skip => panic!("expected a save decision"),
    }
}

#[test]
fn forward_for_unknown_host_only_stamps() {
    let registry = registry_with("example.com", vec!["gz"], "/root");
    let response = ProxyResponse { status: 200, headers: vec![header("etag", "x")], body: vec![7] };
    let (out, decision) = forward(
        &registry,
        Some("other.example.org"),
        "/data/archive.tar.gz",
        response,
        None,
    );
    assert_eq!(out.status, 200);
    assert_eq!(out.body, vec![7]);
    assert_eq!(out.headers.len(), 2);
    assert_eq!(out.headers[0].name, "etag");
    assert_eq!(out.headers[1].name, "X-Proxy-Server");
    assert!(matches!(decision, MirrorDecision::Skip));
}

#[test]
fn forward_without_host_uses_loopback_fallback() {
    let registry = registry_with("127.0.0.1", vec!["tar"], "/root");
    let response = ProxyResponse { status: 200, headers: vec![], body: vec![] };
    let (_, decision) = forward(&registry, None, "/a/b.tar", response, None);
    match decision {
        MirrorDecision::Save { directory, file_name } => {
            assert_eq!(directory, "/root/a/");
            assert_eq!(file_name, "b.tar");
        }
        MirrorDecision::Skip => panic!("expected a save decision"),
    }
}

#[test]
fn configured_uri_with_scheme_never_matches_bare_host() {
    // The registry is keyed by whatever string was configured; lookups
    // use the bare host, so a scheme-qualified key never matches.
    let registry = registry_with("https://example.com", vec!["gz"], "/root");
    assert!(registry.get("example.com").is_none());
    assert!(registry.get("https://example.com").is_some());
}
