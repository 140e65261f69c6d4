//! Loading of the TLS server credentials: a PEM certificate chain and a PEM
//! PKCS8 private key are parsed into DER entries, checked to be non-empty,
//! and combined into a server identity. Every failure here is fatal at
//! startup, before any socket is bound; the handshake itself is I/O and lives
//! outside the library.

use vstd::prelude::*;

verus! {

/// The DER payloads of the CERTIFICATE sections of a PEM input, or `None`
/// when the PEM framing or base64 is malformed; determined by the input
/// bytes alone.
pub uninterp spec fn pem_certificates(pem: Seq<u8>) -> Option<Seq<Seq<u8>>>;

/// The DER payloads of the PKCS8 PRIVATE KEY sections of a PEM input, or
/// `None` when the PEM framing or base64 is malformed; determined by the
/// input bytes alone.
pub uninterp spec fn pem_pkcs8_keys(pem: Seq<u8>) -> Option<Seq<Seq<u8>>>;

/// Does this DER chain and key combine into a usable server identity?
/// Determined by the DER bytes alone.
pub uninterp spec fn combines_to_identity(chain: Seq<Seq<u8>>, key: Seq<u8>) -> bool;

/// Relies on rustls_pemfile::certs: returns the DER contents of every
/// CERTIFICATE section of the input, in order, and an error exactly on
/// malformed PEM; the result depends on the input bytes alone.
#[verifier::external_body]
fn parse_certificates(pem: &[u8]) -> (r: Option<Vec<Vec<u8>>>)
    ensures
        match r {
            Some(v) => pem_certificates(pem@) == Option::Some(v.deep_view()),
            None => pem_certificates(pem@) is None,
        },
{
    match rustls_pemfile::certs(&mut &pem[..]) {
        Ok(v) => Some(v),
        Err(_) => None,
    }
}

/// Relies on rustls_pemfile::pkcs8_private_keys: returns the DER contents of
/// every PKCS8 PRIVATE KEY section of the input, in order, and an error
/// exactly on malformed PEM; the result depends on the input bytes alone.
#[verifier::external_body]
fn parse_pkcs8_keys(pem: &[u8]) -> (r: Option<Vec<Vec<u8>>>)
    ensures
        match r {
            Some(v) => pem_pkcs8_keys(pem@) == Option::Some(v.deep_view()),
            None => pem_pkcs8_keys(pem@) is None,
        },
{
    match rustls_pemfile::pkcs8_private_keys(&mut &pem[..]) {
        Ok(v) => Some(v),
        Err(_) => None,
    }
}

/// The rustls server configuration carried opaquely to the listener.
#[verifier::external_type_specification]
#[verifier::external_body]
pub struct ExServerConfig(rustls::ServerConfig);

/// Relies on rustls::ServerConfig::builder with the safe default protocol
/// parameters, no client authentication, and with_single_cert: succeeds
/// exactly when the DER chain and key form a usable server identity (rustls
/// rejects a key it cannot parse as RSA, ECDSA or Ed25519); determined by
/// the DER bytes alone.
#[verifier::external_body]
fn combine_identity(chain: &Vec<Vec<u8>>, key: &Vec<u8>) -> (r: Option<rustls::ServerConfig>)
    ensures
        r is Some <==> combines_to_identity(chain.deep_view(), key@),
{
    let certs: Vec<rustls::Certificate> = chain.iter().map(|c| rustls::Certificate(c.clone())).collect();
    rustls::ServerConfig::builder()
        .with_safe_defaults()
        .with_no_client_auth()
        .with_single_cert(certs, rustls::PrivateKey(key.clone()))
        .ok()
}

/// Why the credentials could not be loaded; each is fatal at startup.
#[derive(Clone, Copy, Debug, PartialEq, Eq, Structural)]
pub enum TlsError {
    /// The certificate PEM input is malformed.
    CertificatesUnreadable,
    /// The certificate PEM input holds no certificate entry.
    NoCertificates,
    /// The private-key PEM input is malformed.
    KeyUnreadable,
    /// The private-key PEM input holds no PKCS8 key entry.
    NoKeys,
    /// The chain and the first key do not combine into a server identity.
    InvalidIdentity,
}

/// Do the credential inputs parse to at least one certificate and at least
/// one key?
pub open spec fn credentials_parse(cert_pem: Seq<u8>, key_pem: Seq<u8>) -> bool {
    &&& pem_certificates(cert_pem) matches Option::Some(cs) && cs.len() > 0
    &&& pem_pkcs8_keys(key_pem) matches Option::Some(ks) && ks.len() > 0
}

/// The exact condition under which loading the credentials fails with `e`:
/// the certificate input is at fault before the key input, and a missing
/// identity is reported only once both inputs parse to entries.
pub open spec fn load_fails_with(cert_pem: Seq<u8>, key_pem: Seq<u8>, e: TlsError) -> bool {
    match e {
        TlsError::CertificatesUnreadable => pem_certificates(cert_pem) is None,
        TlsError::NoCertificates => pem_certificates(cert_pem) matches Option::Some(cs)
            && cs.len() == 0,
        TlsError::KeyUnreadable => {
            &&& pem_certificates(cert_pem) matches Option::Some(cs) && cs.len() > 0
            &&& pem_pkcs8_keys(key_pem) is None
        },
        TlsError::NoKeys => {
            &&& pem_certificates(cert_pem) matches Option::Some(cs) && cs.len() > 0
            &&& pem_pkcs8_keys(key_pem) matches Option::Some(ks) && ks.len() == 0
        },
        TlsError::InvalidIdentity => {
            &&& credentials_parse(cert_pem, key_pem)
            &&& !combines_to_identity(
                pem_certificates(cert_pem).unwrap(),
                pem_pkcs8_keys(key_pem).unwrap()[0],
            )
        },
    }
}

/// The loaded credential material: a non-empty DER certificate chain and the
/// first DER-encoded PKCS8 private key of the key input.
pub struct TlsMaterial {
    pub cert_chain: Vec<Vec<u8>>,
    pub key: Vec<u8>,
}

impl TlsMaterial {
    /// The invariant of a loaded material: the certificate chain is never
    /// empty.
    pub open spec fn wf(&self) -> bool {
        self.cert_chain@.len() > 0
    }

    /// A loaded material is the whole parsed chain plus the first parsed key
    /// of credential inputs that parse to entries.
    pub open spec fn loaded_from(&self, cert_pem: Seq<u8>, key_pem: Seq<u8>) -> bool {
        &&& credentials_parse(cert_pem, key_pem)
        &&& self.cert_chain.deep_view() == pem_certificates(cert_pem).unwrap()
        &&& self.key@ == pem_pkcs8_keys(key_pem).unwrap()[0]
    }

    /// Parse the PEM credential inputs. Fails exactly when an input is
    /// malformed or parses to zero entries; never on a pair that parses.
    pub fn load(cert_pem: &[u8], key_pem: &[u8]) -> (r: Result<TlsMaterial, TlsError>)
        ensures
            match r {
                Ok(m) => m.wf() && m.loaded_from(cert_pem@, key_pem@),
                Err(e) => e != TlsError::InvalidIdentity && load_fails_with(
                    cert_pem@,
                    key_pem@,
                    e,
                ),
            },
    {
        let chain = match parse_certificates(cert_pem) {
            Option::Some(v) => v,
            Option::None => {
                return Err(TlsError::CertificatesUnreadable);
            },
        };
        if chain.len() == 0 {
            assert(chain.deep_view().len() == 0);
            return Err(TlsError::NoCertificates);
        }
        assert(chain.deep_view().len() > 0);
        let mut keys = match parse_pkcs8_keys(key_pem) {
            Option::Some(v) => v,
            Option::None => {
                return Err(TlsError::KeyUnreadable);
            },
        };
        if keys.len() == 0 {
            assert(keys.deep_view().len() == 0);
            return Err(TlsError::NoKeys);
        }
        let ghost ks = keys.deep_view();
        assert(ks.len() > 0);
        let key = keys.remove(0);
        assert(key@ =~= ks[0]);
        Ok(TlsMaterial { cert_chain: chain, key })
    }
}

/// Load the credentials and combine them into a server identity, ready for
/// the secure listener. Fails exactly when `TlsMaterial::load` fails or when
/// the parsed chain and first key do not form an identity.
pub fn load_identity(cert_pem: &[u8], key_pem: &[u8]) -> (r: Result<
    (TlsMaterial, rustls::ServerConfig),
    TlsError,
>)
    ensures
        match r {
            Ok((m, _)) => m.loaded_from(cert_pem@, key_pem@) && combines_to_identity(
                m.cert_chain.deep_view(),
                m.key@,
            ),
            Err(e) => load_fails_with(cert_pem@, key_pem@, e),
        },
{
    let material = match TlsMaterial::load(cert_pem, key_pem) {
        Ok(m) => m,
        Err(e) => {
            return Err(e);
        },
    };
    match combine_identity(&material.cert_chain, &material.key) {
        Option::Some(config) => Ok((material, config)),
        Option::None => Err(TlsError::InvalidIdentity),
    }
}

} // verus!
