//! The error taxonomy: every failure is explicit and typed, and per-call
//! failures carry the caller's context so correlation data survives.

use vstd::prelude::*;

verus! {

/// A construction-time configuration error. Fatal: the service is never
/// built, so nothing can be retried against it.
#[derive(Clone, Copy, Debug, PartialEq, Eq, Structural)]
pub enum ConfigError {
    /// The destination identifier is not present in the registry.
    UnknownDestination,
    /// The certificate-authority override is a malformed or empty PEM bundle.
    InvalidCaBundle,
    /// The client-authentication certificate chain is malformed or empty.
    InvalidClientCertChain,
    /// The client-authentication private key is malformed or missing.
    InvalidPrivateKey,
}

/// Why connection establishment failed, before any bytes of the request
/// were exchanged. Trust failures are reported here, distinctly from
/// protocol-negotiation failures, so callers can tell trust
/// misconfiguration from protocol misconfiguration.
#[derive(Clone, Copy, Debug, PartialEq, Eq, Structural)]
pub enum ConnectReason {
    /// The target URI carries no supported scheme.
    InvalidTarget,
    /// Name resolution or the TCP connection failed.
    Unreachable,
    /// The peer's certificate chain did not validate against the resolved
    /// trust roots.
    TlsTrustFailure,
    /// The peer rejected the client certificate this destination presented.
    TlsClientCertRejected,
    /// The TLS handshake failed for another reason, for instance the peer
    /// mandated client authentication and none is configured.
    TlsHandshake,
}

/// Why protocol negotiation failed after the connection was established.
#[derive(Clone, Copy, Debug, PartialEq, Eq, Structural)]
pub enum NegotiationReason {
    /// The peer's ALPN selection matched none of the proposed protocols.
    AlpnMismatch,
    /// A prior-knowledge cleartext HTTP/2 attempt reached a peer that does
    /// not speak HTTP/2 over cleartext.
    H2cNotSupported,
}

/// Why a body transform failed.
#[derive(Clone, Copy, Debug, PartialEq, Eq, Structural)]
pub enum DecodeReason {
    /// The declared content-encoding names an algorithm outside the
    /// supported set.
    UnsupportedEncoding,
    /// A body declared as gzip is not a well-formed gzip stream.
    CorruptStream,
}

/// The per-call failure taxonomy.
#[derive(Clone, Copy, Debug, PartialEq, Eq, Structural)]
pub enum ErrorKind {
    /// DNS, TCP or TLS-handshake failure, including trust failures.
    Connect(ConnectReason),
    /// The peer refused the proposed protocol.
    ProtocolNegotiation(NegotiationReason),
    /// A request or response body could not be transformed as declared.
    Decode(DecodeReason),
    /// Mid-stream I/O failure after the connection was established.
    Transport,
}

/// A typed per-call failure, carrying the caller's context unchanged so the
/// calling layer can attach correlation identifiers without intercepting
/// the error.
#[derive(Debug)]
pub struct ClientFailure<C> {
    pub kind: ErrorKind,
    pub context: C,
}

} // verus!
