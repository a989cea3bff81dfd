//! Outbound HTTP transport core for a federation gateway: per-destination TLS
//! trust resolution, per-request protocol negotiation (HTTP/1.1, ALPN HTTP/2,
//! cleartext HTTP/2 with prior knowledge), and header-driven gzip body coding.

pub mod codec;
pub mod error;
pub mod headers;
pub mod protocol;
pub mod service;
pub mod tls;
