use subgraph_http::error::ConfigError;
use subgraph_http::error::ConnectReason;
use subgraph_http::error::DecodeReason;
use subgraph_http::error::ErrorKind;
use subgraph_http::headers::Header;
use subgraph_http::protocol::ConnectionStrategy;
use subgraph_http::protocol::Http2Policy;
use subgraph_http::protocol::Scheme;
use subgraph_http::service::complete_response;
use subgraph_http::service::scheme_of_target;
use subgraph_http::service::ClientService;
use subgraph_http::service::HttpRequest;
use subgraph_http::service::RegistryEntry;
use subgraph_http::service::TlsRegistry;
use subgraph_http::tls::TlsClientOverride;

const CERT_PEM: &str = "-----BEGIN CERTIFICATE-----\nAAAA\n-----END CERTIFICATE-----\n";

fn registry_with_test_destination() -> TlsRegistry {
    TlsRegistry {
        entries: vec![RegistryEntry {
            destination: b"test".to_vec(),
            config: TlsClientOverride {
                certificate_authorities: Some(CERT_PEM.as_bytes().to_vec()),
                client_authentication: None,
            },
        }],
    }
}

fn gzip_with_flate2(data: &[u8]) -> Vec<u8> {
    let mut enc = flate2::write::GzEncoder::new(Vec::new(), flate2::Compression::default());
    std::io::Write::write_all(&mut enc, data).unwrap();
    enc.finish().unwrap()
}

#[test]
fn from_config_builds_service_for_known_destination() {
    let registry = registry_with_test_destination();
    let svc =
        ClientService::from_config(&b"test".to_vec(), &registry, None, Http2Policy::Enabled).unwrap();
    assert_eq!(svc.policy, Http2Policy::Enabled);
    assert_eq!(svc.tls.root_certs_der.unwrap(), vec![vec![0u8, 0, 0]]);
    assert!(svc.tls.client_auth.is_none());
}

#[test]
fn per_destination_policy_overrides_default() {
    let registry = registry_with_test_destination();
    let svc = ClientService::from_config(
        &b"test".to_vec(),
        &registry,
        Some(Http2Policy::ForceHttp2),
        Http2Policy::Disabled,
    )
    .unwrap();
    assert_eq!(svc.policy, Http2Policy::ForceHttp2);
}

#[test]
fn from_config_rejects_unknown_destination() {
    let registry = registry_with_test_destination();
    let r = ClientService::from_config(&b"reviews".to_vec(), &registry, None, Http2Policy::Enabled);
    assert_eq!(r.unwrap_err(), ConfigError::UnknownDestination);
}

#[test]
fn from_config_rejects_malformed_bundle() {
    let registry = TlsRegistry {
        entries: vec![RegistryEntry {
            destination: b"test".to_vec(),
            config: TlsClientOverride {
                certificate_authorities: Some(b"not pem".to_vec()),
                client_authentication: None,
            },
        }],
    };
    let r = ClientService::from_config(&b"test".to_vec(), &registry, None, Http2Policy::Enabled);
    assert_eq!(r.unwrap_err(), ConfigError::InvalidCaBundle);
}

#[test]
fn scheme_parsing() {
    assert_eq!(scheme_of_target(&b"https://localhost:4001/graphql".to_vec()), Some(Scheme::Https));
    assert_eq!(scheme_of_target(&b"http://127.0.0.1:4001".to_vec()), Some(Scheme::Http));
    assert_eq!(scheme_of_target(&b"ftp://example.com".to_vec()), None);
    assert_eq!(scheme_of_target(&b"http".to_vec()), None);
}

#[test]
fn prepare_selects_strategy_and_keeps_context() {
    let registry = registry_with_test_destination();
    let svc =
        ClientService::from_config(&b"test".to_vec(), &registry, None, Http2Policy::Enabled).unwrap();
    let req = HttpRequest {
        method: b"POST".to_vec(),
        target: b"https://localhost:4001".to_vec(),
        headers: vec![Header { name: b"content-type".to_vec(), value: b"application/json".to_vec() }],
        body: br#"{"query":"{ me { name username } }"#.to_vec(),
        context: 42u64,
    };
    let prepared = svc.prepare(req).unwrap();
    assert_eq!(prepared.strategy, ConnectionStrategy::TlsAlpnH2OrH1);
    assert_eq!(prepared.method, b"POST".to_vec());
    assert_eq!(prepared.body, br#"{"query":"{ me { name username } }"#.to_vec());
    assert_eq!(prepared.context, 42u64);
}

#[test]
fn prepare_compresses_declared_gzip_body() {
    let registry = registry_with_test_destination();
    let svc =
        ClientService::from_config(&b"test".to_vec(), &registry, None, Http2Policy::ForceHttp2).unwrap();
    let body = br#"{"query":"{ me { name username } }"#.to_vec();
    let req = HttpRequest {
        method: b"POST".to_vec(),
        target: b"http://127.0.0.1:4001".to_vec(),
        headers: vec![Header { name: b"content-encoding".to_vec(), value: b"gzip".to_vec() }],
        body: body.clone(),
        context: String::from("correlation"),
    };
    let prepared = svc.prepare(req).unwrap();
    assert_eq!(prepared.strategy, ConnectionStrategy::CleartextH2Prior);
    assert_eq!(prepared.body, gzip_with_flate2(&body));
    assert_eq!(prepared.context, "correlation");
    assert_eq!(prepared.headers.len(), 1);
    assert_eq!(prepared.headers[0].value, b"gzip".to_vec());
}

#[test]
fn prepare_rejects_invalid_target_with_context() {
    let registry = registry_with_test_destination();
    let svc =
        ClientService::from_config(&b"test".to_vec(), &registry, None, Http2Policy::Enabled).unwrap();
    let req = HttpRequest {
        method: b"GET".to_vec(),
        target: b"ws://localhost".to_vec(),
        headers: Vec::new(),
        body: Vec::new(),
        context: 7u32,
    };
    let failure = svc.prepare(req).unwrap_err();
    assert_eq!(failure.kind, ErrorKind::Connect(ConnectReason::InvalidTarget));
    assert_eq!(failure.context, 7u32);
}

#[test]
fn prepare_rejects_unsupported_declared_encoding() {
    let registry = registry_with_test_destination();
    let svc =
        ClientService::from_config(&b"test".to_vec(), &registry, None, Http2Policy::Enabled).unwrap();
    let req = HttpRequest {
        method: b"POST".to_vec(),
        target: b"http://localhost".to_vec(),
        headers: vec![Header { name: b"content-encoding".to_vec(), value: b"zstd".to_vec() }],
        body: b"abc".to_vec(),
        context: 9u8,
    };
    let failure = svc.prepare(req).unwrap_err();
    assert_eq!(failure.kind, ErrorKind::Decode(DecodeReason::UnsupportedEncoding));
    assert_eq!(failure.context, 9u8);
}

#[test]
fn complete_decodes_gzip_response() {
    let payload = br#"{"data":"test"}"#.to_vec();
    let headers = vec![
        Header { name: b"content-type".to_vec(), value: b"application/json".to_vec() },
        Header { name: b"content-encoding".to_vec(), value: b"gzip".to_vec() },
    ];
    let resp = complete_response(200, headers, gzip_with_flate2(&payload), 5i64).unwrap();
    assert_eq!(resp.status, 200);
    assert_eq!(resp.body, payload);
    assert_eq!(resp.context, 5i64);
}

#[test]
fn complete_passes_plain_response_through() {
    let payload = br#"{"data": null}"#.to_vec();
    let headers = vec![Header {
        name: b"content-type".to_vec(),
        value: b"application/json".to_vec(),
    }];
    let resp = complete_response(200, headers, payload.clone(), ()).unwrap();
    assert_eq!(resp.body, payload);
}

#[test]
fn complete_rejects_corrupt_gzip_with_context() {
    let headers = vec![Header { name: b"content-encoding".to_vec(), value: b"gzip".to_vec() }];
    let failure = complete_response(200, headers, b"junk".to_vec(), 11u64).unwrap_err();
    assert_eq!(failure.kind, ErrorKind::Decode(DecodeReason::CorruptStream));
    assert_eq!(failure.context, 11u64);
}

#[test]
fn complete_rejects_unknown_encoding_rather_than_forwarding() {
    let headers = vec![Header { name: b"content-encoding".to_vec(), value: b"br".to_vec() }];
    let failure = complete_response(200, headers, b"compressed".to_vec(), 3u64).unwrap_err();
    assert_eq!(failure.kind, ErrorKind::Decode(DecodeReason::UnsupportedEncoding));
    assert_eq!(failure.context, 3u64);
}

#[test]
fn first_matching_registry_entry_wins() {
    let registry = TlsRegistry {
        entries: vec![
            RegistryEntry {
                destination: b"test".to_vec(),
                config: TlsClientOverride {
                    certificate_authorities: Some(CERT_PEM.as_bytes().to_vec()),
                    client_authentication: None,
                },
            },
            RegistryEntry {
                destination: b"test".to_vec(),
                config: TlsClientOverride {
                    certificate_authorities: Some(b"garbage".to_vec()),
                    client_authentication: None,
                },
            },
        ],
    };
    let svc =
        ClientService::from_config(&b"test".to_vec(), &registry, None, Http2Policy::Disabled).unwrap();
    assert!(svc.tls.root_certs_der.is_some());
}
