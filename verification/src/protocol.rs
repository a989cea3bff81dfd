//! Per-request protocol negotiation: a closed decision table from the request
//! scheme and the destination's HTTP/2 policy to a connection strategy.

use vstd::prelude::*;

verus! {

/// The scheme of the request's target URI.
#[derive(Clone, Copy, Debug, PartialEq, Eq, Structural)]
pub enum Scheme {
    Http,
    Https,
}

/// The destination's HTTP/2 policy: a closed set of three variants.
#[derive(Clone, Copy, Debug, PartialEq, Eq, Structural)]
pub enum Http2Policy {
    /// HTTP/1.1 only, over TLS or cleartext.
    Disabled,
    /// Negotiate HTTP/1.1 or HTTP/2 via ALPN over TLS; HTTP/1.1 over cleartext.
    Enabled,
    /// Cleartext HTTP/2 with prior knowledge: no TLS, no upgrade handshake.
    ForceHttp2,
}

/// How the connection for one request is to be established.
#[derive(Clone, Copy, Debug, PartialEq, Eq, Structural)]
pub enum ConnectionStrategy {
    /// TLS handshake, offering both HTTP/2 and HTTP/1.1 via ALPN.
    TlsAlpnH2OrH1,
    /// TLS handshake, offering HTTP/1.1 only via ALPN.
    TlsH1Only,
    /// Plain HTTP/1.1 over an unencrypted connection; no implicit upgrade.
    CleartextH1,
    /// HTTP/2 framing over an unencrypted connection with prior knowledge:
    /// no upgrade request and no ALPN.
    CleartextH2Prior,
}

/// The decision table: which strategy each (scheme, policy) pair selects.
pub open spec fn strategy_for(scheme: Scheme, policy: Http2Policy) -> ConnectionStrategy {
    match scheme {
        Scheme::Https => match policy {
            Http2Policy::Disabled => ConnectionStrategy::TlsH1Only,
            Http2Policy::Enabled => ConnectionStrategy::TlsAlpnH2OrH1,
            Http2Policy::ForceHttp2 => ConnectionStrategy::TlsAlpnH2OrH1,
        },
        Scheme::Http => match policy {
            Http2Policy::Disabled => ConnectionStrategy::CleartextH1,
            Http2Policy::Enabled => ConnectionStrategy::CleartextH1,
            Http2Policy::ForceHttp2 => ConnectionStrategy::CleartextH2Prior,
        },
    }
}

/// Whether a strategy performs a TLS handshake.
pub open spec fn spec_uses_tls(s: ConnectionStrategy) -> bool {
    s == ConnectionStrategy::TlsAlpnH2OrH1 || s == ConnectionStrategy::TlsH1Only
}

/// Selects the connection strategy for one request, per the decision table.
pub fn negotiate(scheme: Scheme, policy: Http2Policy) -> (s: ConnectionStrategy)
    ensures
        s == strategy_for(scheme, policy),
{
    match scheme {
        Scheme::Https => match policy {
            Http2Policy::Disabled => ConnectionStrategy::TlsH1Only,
            _ => ConnectionStrategy::TlsAlpnH2OrH1,
        },
        Scheme::Http => match policy {
            Http2Policy::ForceHttp2 => ConnectionStrategy::CleartextH2Prior,
            _ => ConnectionStrategy::CleartextH1,
        },
    }
}

/// Reports whether a strategy performs a TLS handshake.
pub fn uses_tls(s: ConnectionStrategy) -> (r: bool)
    ensures
        r == spec_uses_tls(s),
{
    match s {
        ConnectionStrategy::TlsAlpnH2OrH1 => true,
        ConnectionStrategy::TlsH1Only => true,
        ConnectionStrategy::CleartextH1 => false,
        ConnectionStrategy::CleartextH2Prior => false,
    }
}

/// A forced-HTTP/2 cleartext call never attempts a TLS handshake: the
/// strategy chosen for an `http` target under `ForceHttp2` is prior-knowledge
/// cleartext HTTP/2, which performs no TLS handshake at all.
pub proof fn lemma_force_http2_cleartext_never_tls()
    ensures
        strategy_for(Scheme::Http, Http2Policy::ForceHttp2) == ConnectionStrategy::CleartextH2Prior,
        !spec_uses_tls(strategy_for(Scheme::Http, Http2Policy::ForceHttp2)),
{
}

} // verus!
