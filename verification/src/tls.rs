//! Per-destination TLS trust resolution: PEM material from the
//! configuration is parsed once, at construction time, into immutable
//! DER-encoded trust roots and an optional client identity. A malformed or
//! empty bundle fails here with a `ConfigError`, never at call time.

use vstd::prelude::*;

use crate::error::ConfigError;

verus! {

/// The DER certificates that the PEM parser extracts from the given bytes:
/// `Some` of the list (possibly empty) when every certificate section is
/// well-formed, `None` when one is malformed. A function of the input
/// bytes alone.
pub uninterp spec fn pem_certs_of(p: Seq<u8>) -> Option<Seq<Seq<u8>>>;

/// The PKCS#8 private keys the PEM parser extracts from the given bytes,
/// `None` on a malformed section. A function of the input bytes alone.
pub uninterp spec fn pem_pkcs8_keys_of(p: Seq<u8>) -> Option<Seq<Seq<u8>>>;

/// The PKCS#1 (RSA) private keys the PEM parser extracts from the given
/// bytes, `None` on a malformed section. A function of the input bytes alone.
pub uninterp spec fn pem_rsa_keys_of(p: Seq<u8>) -> Option<Seq<Seq<u8>>>;

/// The SEC1 (EC) private keys the PEM parser extracts from the given
/// bytes, `None` on a malformed section. A function of the input bytes alone.
pub uninterp spec fn pem_ec_keys_of(p: Seq<u8>) -> Option<Seq<Seq<u8>>>;

/// Relies on rustls_pemfile::certs: it yields the DER bytes of each
/// CERTIFICATE section of the input, in order, and an error when a section
/// is malformed; the outcome depends on the input bytes alone.
#[verifier::external_body]
fn pem_parse_certs(p: &Vec<u8>) -> (r: Result<Vec<Vec<u8>>, ()>)
    ensures
        r matches Ok(v) ==> pem_certs_of(p@) == Some(v.deep_view()),
        r is Err ==> pem_certs_of(p@) is None,
{
    let parsed: Result<Vec<_>, std::io::Error> =
        rustls_pemfile::certs(&mut p.as_slice()).collect();
    match parsed {
        Ok(certs) => Ok(certs.into_iter().map(|c| c.as_ref().to_vec()).collect()),
        Err(_) => Err(()),
    }
}

/// Relies on rustls_pemfile::pkcs8_private_keys: it yields the DER bytes of
/// each PKCS#8 private-key section of the input, in order, and an error when
/// a section is malformed; the outcome depends on the input bytes alone.
#[verifier::external_body]
fn pem_parse_pkcs8_keys(p: &Vec<u8>) -> (r: Result<Vec<Vec<u8>>, ()>)
    ensures
        r matches Ok(v) ==> pem_pkcs8_keys_of(p@) == Some(v.deep_view()),
        r is Err ==> pem_pkcs8_keys_of(p@) is None,
{
    let parsed: Result<Vec<_>, std::io::Error> =
        rustls_pemfile::pkcs8_private_keys(&mut p.as_slice()).collect();
    match parsed {
        Ok(keys) => Ok(keys.into_iter().map(|k| k.secret_pkcs8_der().to_vec()).collect()),
        Err(_) => Err(()),
    }
}

/// Relies on rustls_pemfile::rsa_private_keys: it yields the DER bytes of
/// each PKCS#1 private-key section of the input, in order, and an error when
/// a section is malformed; the outcome depends on the input bytes alone.
#[verifier::external_body]
fn pem_parse_rsa_keys(p: &Vec<u8>) -> (r: Result<Vec<Vec<u8>>, ()>)
    ensures
        r matches Ok(v) ==> pem_rsa_keys_of(p@) == Some(v.deep_view()),
        r is Err ==> pem_rsa_keys_of(p@) is None,
{
    let parsed: Result<Vec<_>, std::io::Error> =
        rustls_pemfile::rsa_private_keys(&mut p.as_slice()).collect();
    match parsed {
        Ok(keys) => Ok(keys.into_iter().map(|k| k.secret_pkcs1_der().to_vec()).collect()),
        Err(_) => Err(()),
    }
}

/// Relies on rustls_pemfile::ec_private_keys: it yields the DER bytes of
/// each SEC1 private-key section of the input, in order, and an error when
/// a section is malformed; the outcome depends on the input bytes alone.
#[verifier::external_body]
fn pem_parse_ec_keys(p: &Vec<u8>) -> (r: Result<Vec<Vec<u8>>, ()>)
    ensures
        r matches Ok(v) ==> pem_ec_keys_of(p@) == Some(v.deep_view()),
        r is Err ==> pem_ec_keys_of(p@) is None,
{
    let parsed: Result<Vec<_>, std::io::Error> =
        rustls_pemfile::ec_private_keys(&mut p.as_slice()).collect();
    match parsed {
        Ok(keys) => Ok(keys.into_iter().map(|k| k.secret_sec1_der().to_vec()).collect()),
        Err(_) => Err(()),
    }
}

/// The encoding of a resolved private key, so the handshake layer can
/// rebuild the right key type from the DER bytes.
#[derive(Clone, Copy, Debug, PartialEq, Eq, Structural)]
pub enum KeyKind {
    Pkcs8,
    Rsa,
    Ec,
}

/// A resolved client identity: a non-empty DER certificate chain and a
/// private key, presented during the handshake only when the peer requests
/// client authentication.
#[derive(Clone, Debug)]
pub struct ClientAuthConfig {
    pub cert_chain_der: Vec<Vec<u8>>,
    pub key_kind: KeyKind,
    pub key_der: Vec<u8>,
}

/// The immutable, destination-scoped TLS configuration. `None` trust roots
/// mean the platform's native trust store.
#[derive(Clone, Debug)]
pub struct TlsClientConfig {
    pub root_certs_der: Option<Vec<Vec<u8>>>,
    pub client_auth: Option<ClientAuthConfig>,
}

/// The raw per-destination override as configuration supplies it: optional
/// PEM text for the trust roots and an optional PEM client identity.
#[derive(Clone, Debug)]
pub struct TlsClientOverride {
    pub certificate_authorities: Option<Vec<u8>>,
    pub client_authentication: Option<ClientAuthPem>,
}

/// PEM material for a client identity.
#[derive(Clone, Debug)]
pub struct ClientAuthPem {
    pub certificate_chain: Vec<u8>,
    pub key: Vec<u8>,
}

/// Well-formedness of a resolved configuration: an override bundle holds at
/// least one root, and a client identity holds at least one chain
/// certificate.
pub open spec fn tls_config_wf(c: TlsClientConfig) -> bool {
    &&& (c.root_certs_der matches Some(v) ==> v@.len() > 0)
    &&& (c.client_auth matches Some(a) ==> a.cert_chain_der@.len() > 0)
}

/// How an optional certificate-authority override resolves: absent means
/// the platform store; present means the parsed, non-empty bundle, and a
/// malformed or empty bundle is a construction-time error.
pub open spec fn spec_resolve_roots(ca_pem: Option<Seq<u8>>) -> Result<Option<Seq<Seq<u8>>>, ConfigError> {
    match ca_pem {
        None => Ok(None),
        Some(p) => match pem_certs_of(p) {
            Some(certs) => if certs.len() == 0 {
                Err(ConfigError::InvalidCaBundle)
            } else {
                Ok(Some(certs))
            },
            None => Err(ConfigError::InvalidCaBundle),
        },
    }
}

/// The private key a PEM blob resolves to: the first PKCS#8 key, else the
/// first PKCS#1 key, else the first SEC1 key; `None` when the blob is
/// malformed or holds no key.
pub open spec fn spec_key_of(p: Seq<u8>) -> Option<(KeyKind, Seq<u8>)> {
    match pem_pkcs8_keys_of(p) {
        None => None,
        Some(pkcs8) => if pkcs8.len() > 0 {
            Some((KeyKind::Pkcs8, pkcs8[0]))
        } else {
            match pem_rsa_keys_of(p) {
                None => None,
                Some(rsa) => if rsa.len() > 0 {
                    Some((KeyKind::Rsa, rsa[0]))
                } else {
                    match pem_ec_keys_of(p) {
                        None => None,
                        Some(ec) => if ec.len() > 0 {
                            Some((KeyKind::Ec, ec[0]))
                        } else {
                            None
                        },
                    }
                },
            }
        },
    }
}

/// How an optional client-authentication override resolves: the chain is
/// parsed first and must be non-empty, then the key; each failure has its
/// own construction-time error.
pub open spec fn spec_resolve_client_auth(auth: Option<(Seq<u8>, Seq<u8>)>) -> Result<
    Option<(Seq<Seq<u8>>, KeyKind, Seq<u8>)>,
    ConfigError,
> {
    match auth {
        None => Ok(None),
        Some((chain_pem, key_pem)) => match pem_certs_of(chain_pem) {
            None => Err(ConfigError::InvalidClientCertChain),
            Some(chain) => if chain.len() == 0 {
                Err(ConfigError::InvalidClientCertChain)
            } else {
                match spec_key_of(key_pem) {
                    None => Err(ConfigError::InvalidPrivateKey),
                    Some((kind, der)) => Ok(Some((chain, kind, der))),
                }
            },
        },
    }
}

/// The view of an optional client-authentication override.
pub open spec fn opt_auth_view(auth: Option<&ClientAuthPem>) -> Option<(Seq<u8>, Seq<u8>)> {
    match auth {
        Some(a) => Some((a.certificate_chain@, a.key@)),
        None => None,
    }
}

/// The view of an optional borrowed PEM blob.
pub open spec fn opt_pem_view(o: Option<&Vec<u8>>) -> Option<Seq<u8>> {
    match o {
        Some(v) => Some(v@),
        None => None,
    }
}

/// Whether a resolved configuration is what the spec-level resolution of
/// the given override yields.
pub open spec fn resolves_to(
    ca_pem: Option<Seq<u8>>,
    auth: Option<(Seq<u8>, Seq<u8>)>,
    r: Result<TlsClientConfig, ConfigError>,
) -> bool {
    match r {
        Ok(c) => {
            &&& spec_resolve_roots(ca_pem) is Ok
            &&& spec_resolve_client_auth(auth) is Ok
            &&& (match c.root_certs_der {
                Some(v) => spec_resolve_roots(ca_pem) == Ok::<_, ConfigError>(Some(v.deep_view())),
                None => spec_resolve_roots(ca_pem) == Ok::<_, ConfigError>(None::<Seq<Seq<u8>>>),
            })
            &&& (match c.client_auth {
                Some(a) => spec_resolve_client_auth(auth) == Ok::<_, ConfigError>(
                    Some((a.cert_chain_der.deep_view(), a.key_kind, a.key_der@)),
                ),
                None => spec_resolve_client_auth(auth) == Ok::<_, ConfigError>(
                    None::<(Seq<Seq<u8>>, KeyKind, Seq<u8>)>,
                ),
            })
        },
        Err(e) => {
            ||| spec_resolve_roots(ca_pem) == Err::<Option<Seq<Seq<u8>>>, ConfigError>(e)
            ||| (spec_resolve_roots(ca_pem) is Ok && spec_resolve_client_auth(auth)
                == Err::<Option<(Seq<Seq<u8>>, KeyKind, Seq<u8>)>, ConfigError>(e))
        },
    }
}

/// Resolves the trust roots of one destination from its optional
/// certificate-authority override.
pub fn resolve_roots(ca_pem: Option<&Vec<u8>>) -> (r: Result<Option<Vec<Vec<u8>>>, ConfigError>)
    ensures
        r matches Ok(Some(v)) ==> spec_resolve_roots(opt_pem_view(ca_pem)) == Ok::<_, ConfigError>(
            Some(v.deep_view()),
        ),
        r matches Ok(None::<Vec<Vec<u8>>>) ==> spec_resolve_roots(opt_pem_view(ca_pem)) == Ok::<
            _,
            ConfigError,
        >(None::<Seq<Seq<u8>>>),
        r matches Err(e) ==> spec_resolve_roots(opt_pem_view(ca_pem)) == Err::<
            Option<Seq<Seq<u8>>>,
            ConfigError,
        >(e),
{
    match ca_pem {
        None => Ok(None),
        Some(p) => match pem_parse_certs(p) {
            Ok(certs) => {
                if certs.len() == 0 {
                    Err(ConfigError::InvalidCaBundle)
                } else {
                    Ok(Some(certs))
                }
            },
            Err(_) => Err(ConfigError::InvalidCaBundle),
        },
    }
}

/// Resolves the private key of a client identity from its PEM blob.
fn resolve_key(key_pem: &Vec<u8>) -> (r: Result<(KeyKind, Vec<u8>), ConfigError>)
    ensures
        r matches Ok((kind, der)) ==> spec_key_of(key_pem@) == Some((kind, der@)),
        r is Err ==> spec_key_of(key_pem@) is None,
        r matches Err(e) ==> e == ConfigError::InvalidPrivateKey,
{
    match pem_parse_pkcs8_keys(key_pem) {
        Err(_) => Err(ConfigError::InvalidPrivateKey),
        Ok(mut pkcs8) => {
            if pkcs8.len() > 0 {
                let der = pkcs8.remove(0);
                Ok((KeyKind::Pkcs8, der))
            } else {
                match pem_parse_rsa_keys(key_pem) {
                    Err(_) => Err(ConfigError::InvalidPrivateKey),
                    Ok(mut rsa) => {
                        if rsa.len() > 0 {
                            let der = rsa.remove(0);
                            Ok((KeyKind::Rsa, der))
                        } else {
                            match pem_parse_ec_keys(key_pem) {
                                Err(_) => Err(ConfigError::InvalidPrivateKey),
                                Ok(mut ec) => {
                                    if ec.len() > 0 {
                                        let der = ec.remove(0);
                                        Ok((KeyKind::Ec, der))
                                    } else {
                                        Err(ConfigError::InvalidPrivateKey)
                                    }
                                },
                            }
                        }
                    },
                }
            }
        },
    }
}

/// Resolves the optional client identity of one destination.
pub fn resolve_client_auth(auth: Option<&ClientAuthPem>) -> (r: Result<
    Option<ClientAuthConfig>,
    ConfigError,
>)
    ensures
        r matches Ok(Some(a)) ==> spec_resolve_client_auth(opt_auth_view(auth)) == Ok::<
            _,
            ConfigError,
        >(Some((a.cert_chain_der.deep_view(), a.key_kind, a.key_der@))),
        r matches Ok(None::<ClientAuthConfig>) ==> spec_resolve_client_auth(opt_auth_view(auth))
            == Ok::<_, ConfigError>(None::<(Seq<Seq<u8>>, KeyKind, Seq<u8>)>),
        r matches Err(e) ==> spec_resolve_client_auth(opt_auth_view(auth)) == Err::<
            Option<(Seq<Seq<u8>>, KeyKind, Seq<u8>)>,
            ConfigError,
        >(e),
{
    match auth {
        None => Ok(None),
        Some(a) => match pem_parse_certs(&a.certificate_chain) {
            Err(_) => Err(ConfigError::InvalidClientCertChain),
            Ok(chain) => {
                if chain.len() == 0 {
                    Err(ConfigError::InvalidClientCertChain)
                } else {
                    match resolve_key(&a.key) {
                        Err(e) => Err(e),
                        Ok((kind, der)) => Ok(Some(ClientAuthConfig {
                            cert_chain_der: chain,
                            key_kind: kind,
                            key_der: der,
                        })),
                    }
                }
            },
        },
    }
}

/// Builds the immutable TLS configuration of one destination from its
/// override, or reports the construction-time error. Resolution of one
/// destination touches no state of another.
pub fn resolve_tls_config(over: Option<&TlsClientOverride>) -> (r: Result<
    TlsClientConfig,
    ConfigError,
>)
    ensures
        ({
            let ca = match over {
                Some(o) => match o.certificate_authorities {
                    Some(p) => Some(p@),
                    None => None::<Seq<u8>>,
                },
                None => None::<Seq<u8>>,
            };
            let auth = match over {
                Some(o) => match o.client_authentication {
                    Some(a) => Some((a.certificate_chain@, a.key@)),
                    None => None::<(Seq<u8>, Seq<u8>)>,
                },
                None => None::<(Seq<u8>, Seq<u8>)>,
            };
            resolves_to(ca, auth, r)
        }),
        r matches Ok(c) ==> tls_config_wf(c),
{
    match over {
        None => Ok(TlsClientConfig { root_certs_der: None, client_auth: None }),
        Some(o) => {
            let roots = match resolve_roots(o.certificate_authorities.as_ref()) {
                Ok(v) => v,
                Err(e) => {
                    return Err(e);
                },
            };
            let auth = match resolve_client_auth(o.client_authentication.as_ref()) {
                Ok(v) => v,
                Err(e) => {
                    return Err(e);
                },
            };
            Ok(TlsClientConfig { root_certs_der: roots, client_auth: auth })
        },
    }
}

} // verus!
