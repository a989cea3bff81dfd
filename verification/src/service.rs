//! The client service: the one entry point callers use. Construction
//! resolves trust material per destination; each call negotiates a
//! protocol strategy, transforms the outgoing body, classifies the
//! connection outcome, and decodes the incoming body — all while carrying
//! the caller's context through unchanged, on success and on failure.

use vstd::prelude::*;

use crate::codec;
use crate::codec::spec_decode;
use crate::codec::spec_encode;
use crate::error::ClientFailure;
use crate::error::ConfigError;
use crate::error::ConnectReason;
use crate::error::ErrorKind;
use crate::error::NegotiationReason;
use crate::headers::Header;
use crate::headers::header_value;
use crate::headers::spec_header_value;
use crate::protocol::ConnectionStrategy;
use crate::protocol::Http2Policy;
use crate::protocol::Scheme;
use crate::protocol::negotiate;
use crate::protocol::strategy_for;
use crate::tls::TlsClientConfig;
use crate::tls::TlsClientOverride;
use crate::tls::resolve_tls_config;
use crate::tls::resolves_to;
use crate::tls::tls_config_wf;

verus! {

/// A request envelope: plain values plus the caller's opaque context.
/// Header names are expected in their lower-case wire form.
#[derive(Debug)]
pub struct HttpRequest<C> {
    pub method: Vec<u8>,
    pub target: Vec<u8>,
    pub headers: Vec<Header>,
    pub body: Vec<u8>,
    pub context: C,
}

/// A response envelope: the peer's status and headers, the decompressed
/// body, and the caller's context unchanged.
#[derive(Debug)]
pub struct HttpResponse<C> {
    pub status: u16,
    pub headers: Vec<Header>,
    pub body: Vec<u8>,
    pub context: C,
}

/// A request ready for the wire: the connection strategy the negotiator
/// selected and the body in its declared wire encoding.
#[derive(Debug)]
pub struct PreparedRequest<C> {
    pub strategy: ConnectionStrategy,
    pub method: Vec<u8>,
    pub target: Vec<u8>,
    pub headers: Vec<Header>,
    pub body: Vec<u8>,
    pub context: C,
}

/// One registry entry: a destination identifier and its TLS override.
#[derive(Debug)]
pub struct RegistryEntry {
    pub destination: Vec<u8>,
    pub config: TlsClientOverride,
}

/// The per-destination trust overrides: built once, immutable afterwards.
/// A configuration reload builds a new registry; nothing mutates in place.
#[derive(Debug)]
pub struct TlsRegistry {
    pub entries: Vec<RegistryEntry>,
}

/// The override of the first entry naming the destination, if any.
pub open spec fn spec_lookup(entries: Seq<RegistryEntry>, name: Seq<u8>) -> Option<TlsClientOverride>
    decreases entries.len(),
{
    if entries.len() == 0 {
        None
    } else if entries[0].destination@ == name {
        Some(entries[0].config)
    } else {
        spec_lookup(entries.skip(1), name)
    }
}

/// The bytes of the scheme prefix `https://`.
pub open spec fn https_prefix() -> Seq<u8> {
    seq![104u8, 116u8, 116u8, 112u8, 115u8, 58u8, 47u8, 47u8]
}

/// The bytes of the scheme prefix `http://`.
pub open spec fn http_prefix() -> Seq<u8> {
    seq![104u8, 116u8, 116u8, 112u8, 58u8, 47u8, 47u8]
}

/// The scheme a target URI starts with, if a supported one.
pub open spec fn spec_scheme_of(target: Seq<u8>) -> Option<Scheme> {
    if target.len() >= 8 && target.subrange(0, 8) == https_prefix() {
        Some(Scheme::Https)
    } else if target.len() >= 7 && target.subrange(0, 7) == http_prefix() {
        Some(Scheme::Http)
    } else {
        None
    }
}

/// Parses the scheme of a target URI.
pub fn scheme_of_target(target: &Vec<u8>) -> (r: Option<Scheme>)
    ensures
        r == spec_scheme_of(target@),
{
    if target.len() >= 8 && target[0] == 104 && target[1] == 116 && target[2] == 116 && target[3]
        == 112 && target[4] == 115 && target[5] == 58 && target[6] == 47 && target[7] == 47 {
        proof {
            assert(target@.subrange(0, 8) =~= https_prefix());
        }
        Some(Scheme::Https)
    } else if target.len() >= 7 && target[0] == 104 && target[1] == 116 && target[2] == 116
        && target[3] == 112 && target[4] == 58 && target[5] == 47 && target[6] == 47 {
        proof {
            assert(target@.subrange(0, 7) =~= http_prefix());
            if target@.len() >= 8 && target@.subrange(0, 8) == https_prefix() {
                assert(target@.subrange(0, 8)[4] == target@[4]);
                assert(false);
            }
        }
        Some(Scheme::Http)
    } else {
        proof {
            if target@.len() >= 8 && target@.subrange(0, 8) == https_prefix() {
                assert(forall|j: int| 0 <= j < 8 ==> target@.subrange(0, 8)[j] == target@[j]);
                assert(false);
            }
            if target@.len() >= 7 && target@.subrange(0, 7) == http_prefix() {
                assert(forall|j: int| 0 <= j < 7 ==> target@.subrange(0, 7)[j] == target@[j]);
                assert(false);
            }
        }
        None
    }
}

/// The lower-case name of the content-encoding header, as bytes.
pub open spec fn content_encoding_name() -> Seq<u8> {
    seq![99u8, 111u8, 110u8, 116u8, 101u8, 110u8, 116u8, 45u8, 101u8, 110u8, 99u8, 111u8, 100u8, 105u8, 110u8, 103u8]
}

/// Builds the `content-encoding` header name.
fn content_encoding_bytes() -> (r: Vec<u8>)
    ensures
        r@ == content_encoding_name(),
{
    let mut v: Vec<u8> = Vec::new();
    v.push(99);
    v.push(111);
    v.push(110);
    v.push(116);
    v.push(101);
    v.push(110);
    v.push(116);
    v.push(45);
    v.push(101);
    v.push(110);
    v.push(99);
    v.push(111);
    v.push(100);
    v.push(105);
    v.push(110);
    v.push(103);
    proof {
        assert(v@ =~= content_encoding_name());
    }
    v
}

/// A reusable handle bound to one destination: immutable trust material
/// and the compiled protocol policy, read-only for the service's lifetime.
#[derive(Debug)]
pub struct ClientService {
    pub tls: TlsClientConfig,
    pub policy: Http2Policy,
}

/// Whether a service is well-formed: its trust material is.
pub open spec fn service_wf(s: ClientService) -> bool {
    tls_config_wf(s.tls)
}

impl ClientService {
    /// Builds a service for one destination: looks the destination up in
    /// the registry and resolves its trust override per the resolver's
    /// rules. The destination's own HTTP/2 policy, when configured,
    /// overrides the process-wide default. An unknown destination and
    /// malformed certificate or key material are construction-time errors;
    /// the service is then never usable.
    pub fn from_config(
        destination: &Vec<u8>,
        registry: &TlsRegistry,
        policy_override: Option<Http2Policy>,
        default_policy: Http2Policy,
    ) -> (r: Result<ClientService, ConfigError>)
        ensures
            ({
                let over = spec_lookup(registry.entries@, destination@);
                match r {
                    Ok(s) => {
                        &&& over is Some
                        &&& s.policy == (match policy_override {
                            Some(p) => p,
                            None => default_policy,
                        })
                        &&& service_wf(s)
                        &&& resolves_to(
                            match over.unwrap().certificate_authorities {
                                Some(p) => Some(p@),
                                None => None,
                            },
                            match over.unwrap().client_authentication {
                                Some(a) => Some((a.certificate_chain@, a.key@)),
                                None => None,
                            },
                            Ok(s.tls),
                        )
                    },
                    Err(ConfigError::UnknownDestination) => over is None,
                    Err(e) => {
                        &&& over is Some
                        &&& resolves_to(
                            match over.unwrap().certificate_authorities {
                                Some(p) => Some(p@),
                                None => None,
                            },
                            match over.unwrap().client_authentication {
                                Some(a) => Some((a.certificate_chain@, a.key@)),
                                None => None,
                            },
                            Err(e),
                        )
                    },
                }
            }),
    {
        let over = match lookup_override(registry, destination) {
            Some(o) => o,
            None => {
                return Err(ConfigError::UnknownDestination);
            },
        };
        let policy = match policy_override {
            Some(p) => p,
            None => default_policy,
        };
        match resolve_tls_config(Some(over)) {
            Ok(tls) => Ok(ClientService { tls, policy }),
            Err(e) => {
                proof {
                    assert(e != ConfigError::UnknownDestination);
                }
                Err(e)
            },
        }
    }

    /// Prepares one request: selects the connection strategy for the
    /// target's scheme under this destination's policy, and puts the body
    /// into its declared wire encoding. The caller's declared
    /// content-encoding header is never invented nor removed, and the
    /// context rides along unchanged, into the failure too.
    pub fn prepare<C>(&self, req: HttpRequest<C>) -> (r: Result<PreparedRequest<C>, ClientFailure<C>>)
        ensures
            ({
                let scheme = spec_scheme_of(req.target@);
                let enc = spec_header_value(req.headers@, content_encoding_name());
                match r {
                    Ok(p) => {
                        &&& scheme is Some
                        &&& p.strategy == strategy_for(scheme.unwrap(), self.policy)
                        &&& p.method == req.method
                        &&& p.target == req.target
                        &&& p.headers == req.headers
                        &&& p.context == req.context
                        &&& spec_encode(req.body@, enc) == Ok::<Seq<u8>, crate::error::DecodeReason>(p.body@)
                        &&& spec_decode(p.body@, enc) == Ok::<Seq<u8>, crate::error::DecodeReason>(req.body@)
                    },
                    Err(f) => {
                        &&& f.context == req.context
                        &&& (scheme is None ==> f.kind == ErrorKind::Connect(
                            ConnectReason::InvalidTarget,
                        ))
                        &&& (scheme is Some ==> spec_encode(req.body@, enc) == Err::<
                            Seq<u8>,
                            _,
                        >(
                            match f.kind {
                                ErrorKind::Decode(d) => d,
                                _ => arbitrary(),
                            },
                        ) && f.kind matches ErrorKind::Decode(_))
                    },
                }
            }),
    {
        let scheme = match scheme_of_target(&req.target) {
            Some(s) => s,
            None => {
                return Err(ClientFailure {
                    kind: ErrorKind::Connect(ConnectReason::InvalidTarget),
                    context: req.context,
                });
            },
        };
        let strategy = negotiate(scheme, self.policy);
        let name = content_encoding_bytes();
        let declared = header_value(&req.headers, &name);
        let encoded = match codec::encode_request(req.body, declared.as_ref()) {
            Ok(b) => b,
            Err(e) => {
                return Err(ClientFailure { kind: ErrorKind::Decode(e), context: req.context });
            },
        };
        Ok(PreparedRequest {
            strategy,
            method: req.method,
            target: req.target,
            headers: req.headers,
            body: encoded,
            context: req.context,
        })
    }
}

/// Looks a destination up in the registry: the first entry with that name.
pub fn lookup_override<'a>(registry: &'a TlsRegistry, name: &Vec<u8>) -> (r: Option<
    &'a TlsClientOverride,
>)
    ensures
        match r {
            Some(o) => spec_lookup(registry.entries@, name@) == Some(*o),
            None => spec_lookup(registry.entries@, name@) is None,
        },
{
    let entries = &registry.entries;
    let mut i: usize = 0;
    proof {
        assert(entries@.skip(0) =~= entries@);
    }
    while i < entries.len()
        invariant
            entries@ == registry.entries@,
            i <= entries@.len(),
            spec_lookup(entries@, name@) == spec_lookup(entries@.skip(i as int), name@),
        decreases entries@.len() - i,
    {
        proof {
            assert(entries@.skip(i as int)[0] == entries@[i as int]);
        }
        if crate::headers::bytes_eq(&entries[i].destination, name) {
            let found = &entries[i].config;
            proof {
                assert(entries@.skip(i as int).len() > 0);
                assert(spec_lookup(entries@.skip(i as int), name@) == Some(
                    entries@[i as int].config,
                ));
                assert(*found == entries@[i as int].config);
            }
            return Some(found);
        }
        proof {
            assert(entries@.skip(i as int).skip(1) =~= entries@.skip(i as int + 1));
        }
        i = i + 1;
    }
    None
}

/// What the HTTP layer observed while establishing one connection.
#[derive(Debug)]
pub enum ConnectEvent {
    /// A TLS handshake completed; `alpn_h2` says whether the peer's ALPN
    /// selection was HTTP/2.
    TlsEstablished { alpn_h2: bool },
    /// The peer's certificate chain did not validate against the resolved
    /// trust roots.
    TlsTrustFailure,
    /// The peer rejected the presented client certificate.
    TlsClientCertRejected,
    /// The TLS handshake failed for another reason, for instance client
    /// authentication was mandated and none is configured.
    TlsHandshakeFailed,
    /// A cleartext TCP connection was established.
    TcpEstablished,
    /// Name resolution or the TCP connection failed.
    ConnectFailed,
    /// The cleartext peer of a prior-knowledge HTTP/2 attempt does not
    /// speak HTTP/2.
    H2cRejected,
}

/// The protocol a connection ended up speaking.
#[derive(Clone, Copy, Debug, PartialEq, Eq, Structural)]
pub enum WireProtocol {
    H1,
    H2,
}

/// The outcome table for connection establishment. Trust failures map to
/// connect errors; refused protocols map to negotiation errors, so the two
/// misconfigurations stay distinguishable. An event that the strategy
/// cannot produce is classified as a transport fault.
pub open spec fn spec_classify(strategy: ConnectionStrategy, ev: ConnectEvent) -> Result<
    WireProtocol,
    ErrorKind,
> {
    match ev {
        ConnectEvent::TlsEstablished { alpn_h2 } => match strategy {
            ConnectionStrategy::TlsAlpnH2OrH1 => if alpn_h2 {
                Ok(WireProtocol::H2)
            } else {
                Ok(WireProtocol::H1)
            },
            ConnectionStrategy::TlsH1Only => if alpn_h2 {
                Err(ErrorKind::ProtocolNegotiation(NegotiationReason::AlpnMismatch))
            } else {
                Ok(WireProtocol::H1)
            },
            _ => Err(ErrorKind::Transport),
        },
        ConnectEvent::TlsTrustFailure => Err(ErrorKind::Connect(ConnectReason::TlsTrustFailure)),
        ConnectEvent::TlsClientCertRejected => Err(
            ErrorKind::Connect(ConnectReason::TlsClientCertRejected),
        ),
        ConnectEvent::TlsHandshakeFailed => Err(ErrorKind::Connect(ConnectReason::TlsHandshake)),
        ConnectEvent::TcpEstablished => match strategy {
            ConnectionStrategy::CleartextH1 => Ok(WireProtocol::H1),
            ConnectionStrategy::CleartextH2Prior => Ok(WireProtocol::H2),
            _ => Err(ErrorKind::Transport),
        },
        ConnectEvent::ConnectFailed => Err(ErrorKind::Connect(ConnectReason::Unreachable)),
        ConnectEvent::H2cRejected => Err(
            ErrorKind::ProtocolNegotiation(NegotiationReason::H2cNotSupported),
        ),
    }
}

/// Classifies the outcome the HTTP layer observed for one connection
/// attempt, per the outcome table.
pub fn classify_connect(strategy: ConnectionStrategy, ev: ConnectEvent) -> (r: Result<
    WireProtocol,
    ErrorKind,
>)
    ensures
        r == spec_classify(strategy, ev),
{
    match ev {
        ConnectEvent::TlsEstablished { alpn_h2 } => match strategy {
            ConnectionStrategy::TlsAlpnH2OrH1 => {
                if alpn_h2 {
                    Ok(WireProtocol::H2)
                } else {
                    Ok(WireProtocol::H1)
                }
            },
            ConnectionStrategy::TlsH1Only => {
                if alpn_h2 {
                    Err(ErrorKind::ProtocolNegotiation(NegotiationReason::AlpnMismatch))
                } else {
                    Ok(WireProtocol::H1)
                }
            },
            _ => Err(ErrorKind::Transport),
        },
        ConnectEvent::TlsTrustFailure => Err(ErrorKind::Connect(ConnectReason::TlsTrustFailure)),
        ConnectEvent::TlsClientCertRejected => Err(
            ErrorKind::Connect(ConnectReason::TlsClientCertRejected),
        ),
        ConnectEvent::TlsHandshakeFailed => Err(ErrorKind::Connect(ConnectReason::TlsHandshake)),
        ConnectEvent::TcpEstablished => match strategy {
            ConnectionStrategy::CleartextH1 => Ok(WireProtocol::H1),
            ConnectionStrategy::CleartextH2Prior => Ok(WireProtocol::H2),
            _ => Err(ErrorKind::Transport),
        },
        ConnectEvent::ConnectFailed => Err(ErrorKind::Connect(ConnectReason::Unreachable)),
        ConnectEvent::H2cRejected => Err(
            ErrorKind::ProtocolNegotiation(NegotiationReason::H2cNotSupported),
        ),
    }
}

/// Trust failures and protocol refusals stay distinguishable, whatever the
/// strategy: a failed chain validation, a rejected client certificate and
/// any other handshake failure always classify as connect errors, while a
/// cleartext peer's HTTP/2 refusal always classifies as a
/// protocol-negotiation error — never the same kind.
pub proof fn lemma_trust_and_negotiation_distinct(strategy: ConnectionStrategy)
    ensures
        spec_classify(strategy, ConnectEvent::TlsTrustFailure) == Err::<WireProtocol, ErrorKind>(
            ErrorKind::Connect(ConnectReason::TlsTrustFailure),
        ),
        spec_classify(strategy, ConnectEvent::TlsClientCertRejected) == Err::<
            WireProtocol,
            ErrorKind,
        >(ErrorKind::Connect(ConnectReason::TlsClientCertRejected)),
        spec_classify(strategy, ConnectEvent::TlsHandshakeFailed) == Err::<WireProtocol, ErrorKind>(
            ErrorKind::Connect(ConnectReason::TlsHandshake),
        ),
        spec_classify(strategy, ConnectEvent::H2cRejected) == Err::<WireProtocol, ErrorKind>(
            ErrorKind::ProtocolNegotiation(NegotiationReason::H2cNotSupported),
        ),
        spec_classify(strategy, ConnectEvent::TlsTrustFailure) != spec_classify(
            strategy,
            ConnectEvent::H2cRejected,
        ),
{
}

/// Completes one call: decodes the peer's body per its received
/// content-encoding and returns the response envelope carrying the
/// caller's context unchanged — or a typed failure that carries it too.
pub fn complete_response<C>(status: u16, headers: Vec<Header>, body: Vec<u8>, context: C) -> (r:
    Result<HttpResponse<C>, ClientFailure<C>>)
    ensures
        ({
            let enc = spec_header_value(headers@, content_encoding_name());
            match r {
                Ok(resp) => {
                    &&& spec_decode(body@, enc) == Ok::<Seq<u8>, crate::error::DecodeReason>(resp.body@)
                    &&& resp.status == status
                    &&& resp.headers == headers
                    &&& resp.context == context
                },
                Err(f) => {
                    &&& f.context == context
                    &&& f.kind matches ErrorKind::Decode(_)
                    &&& spec_decode(body@, enc) == Err::<Seq<u8>, crate::error::DecodeReason>(
                        match f.kind {
                            ErrorKind::Decode(d) => d,
                            _ => arbitrary(),
                        },
                    )
                },
            }
        }),
{
    let name = content_encoding_bytes();
    let received = header_value(&headers, &name);
    match codec::decode_response(body, received.as_ref()) {
        Ok(decoded) => Ok(HttpResponse { status, headers, body: decoded, context }),
        Err(e) => Err(ClientFailure { kind: ErrorKind::Decode(e), context }),
    }
}

} // verus!
