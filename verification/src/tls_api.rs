//! Declarations for the TLS implementation this library drives, and the
//! trusted wrappers through which verified code calls into it.
//!
//! Everything here is assumed, not proved: each wrapper's contract states
//! only what the called crate's source shows.

use vstd::prelude::*;

verus! {

#[verifier::external_type_specification]
#[verifier::external_body]
pub struct ExIoError(std::io::Error);

#[verifier::external_type_specification]
#[verifier::external_body]
pub struct ExRustlsError(tokio_rustls::rustls::Error);

#[verifier::external_type_specification]
#[verifier::external_body]
pub struct ExRootCertStore(tokio_rustls::rustls::RootCertStore);

#[verifier::external_type_specification]
#[verifier::external_body]
pub struct ExTlsConnector(tokio_rustls::TlsConnector);

#[verifier::external_type_specification]
#[verifier::external_body]
pub struct ExServerName(tokio_rustls::rustls::ServerName);

#[verifier::external_type_specification]
#[verifier::external_body]
pub struct ExTcpStream(tokio::net::TcpStream);

#[verifier::external_type_specification]
#[verifier::external_body]
#[verifier::reject_recursive_types(IO)]
pub struct ExTlsStream<IO>(tokio_rustls::client::TlsStream<IO>);

/// A trust anchor as the root store represents one: the certificate's
/// subject, its public-key info, and its name constraints. The store keeps
/// only this extract, not the DER certificate it came from.
pub type Anchor = (Seq<u8>, Seq<u8>, Option<Seq<u8>>);

/// The DER contents of the CERTIFICATE sections of a PEM document, in order,
/// or `None` when the document cannot be decoded.
pub uninterp spec fn pem_certs_of(pem: Seq<u8>) -> Option<Seq<Seq<u8>>>;

/// The DER contents of the PKCS#8 PRIVATE KEY sections of a PEM document, in
/// order, or `None` when the document cannot be decoded.
pub uninterp spec fn pem_keys_of(pem: Seq<u8>) -> Option<Seq<Seq<u8>>>;

/// Whether a string is accepted as a name to verify a peer's identity
/// against: a well-formed DNS name or an IP address literal.
pub uninterp spec fn host_name_ok(host: Seq<char>) -> bool;

/// Whether a parsed server name is the one the given host text denotes. A
/// relation, not a function: several texts may denote one name.
pub uninterp spec fn server_name_denotes(
    name: tokio_rustls::rustls::ServerName,
    host: Seq<char>,
) -> bool;

/// The trust anchor extracted from a DER certificate, or `None` when the DER
/// is rejected; names the extraction inside the root store's insertion.
pub uninterp spec fn anchor_of(der: Seq<u8>) -> Option<Anchor>;

/// The trust anchors a root store holds, in insertion order.
pub uninterp spec fn store_roots(store: tokio_rustls::rustls::RootCertStore) -> Seq<Anchor>;

/// The trust anchors a connector verifies the peer's certificate against.
pub uninterp spec fn connector_roots(c: tokio_rustls::TlsConnector) -> Seq<Anchor>;

/// The client identity a connector presents during the handshake — one DER
/// certificate and one DER PKCS#8 key — or `None` when it presents nothing.
pub uninterp spec fn connector_identity(c: tokio_rustls::TlsConnector) -> Option<
    (Seq<u8>, Seq<u8>),
>;

/// Whether the encryption layer accepts these bytes as a client private key:
/// a DER-encoded RSA, ECDSA or Ed25519 key.
pub uninterp spec fn client_key_accepted(key: Seq<u8>) -> bool;

/// Relies on rustls_pemfile::certs: extracts the DER contents of the
/// CERTIFICATE sections of a PEM document; the result depends on the bytes
/// alone.
#[verifier::external_body]
pub(crate) fn pem_certs(pem: &Vec<u8>) -> (r: Result<Vec<Vec<u8>>, std::io::Error>)
    ensures
        r matches Ok(cs) ==> pem_certs_of(pem@) == Some(cs.deep_view()),
        r is Err ==> pem_certs_of(pem@) is None,
{
    rustls_pemfile::certs(&mut std::io::Cursor::new(pem))
}

/// Relies on rustls_pemfile::pkcs8_private_keys: extracts the DER contents of
/// the PKCS#8 PRIVATE KEY sections of a PEM document; the result depends on
/// the bytes alone.
#[verifier::external_body]
pub(crate) fn pem_pkcs8_keys(pem: &Vec<u8>) -> (r: Result<Vec<Vec<u8>>, std::io::Error>)
    ensures
        r matches Ok(ks) ==> pem_keys_of(pem@) == Some(ks.deep_view()),
        r is Err ==> pem_keys_of(pem@) is None,
{
    rustls_pemfile::pkcs8_private_keys(&mut std::io::Cursor::new(pem))
}

/// Relies on rustls_native_certs::load_native_certs: reads the platform
/// trust store from disk, so nothing is promised of the outcome.
#[verifier::external_body]
pub(crate) fn load_native_roots() -> (r: Result<Vec<Vec<u8>>, std::io::Error>)
{
    match rustls_native_certs::load_native_certs() {
        Ok(certs) => Ok(certs.into_iter().map(|c| c.0).collect()),
        Err(e) => Err(e),
    }
}

/// Relies on rustls::RootCertStore::empty: a freshly created store holds no
/// anchors.
#[verifier::external_body]
pub(crate) fn root_store_empty() -> (r: tokio_rustls::rustls::RootCertStore)
    ensures
        store_roots(r) == Seq::<Anchor>::empty(),
{
    tokio_rustls::rustls::RootCertStore::empty()
}

/// Relies on rustls::RootCertStore::add: it succeeds exactly when the DER
/// parses as a trust anchor, and then appends that anchor; on failure the
/// store is unchanged.
#[verifier::external_body]
pub(crate) fn root_store_add(
    store: &mut tokio_rustls::rustls::RootCertStore,
    der: &Vec<u8>,
) -> (r: Result<(), tokio_rustls::rustls::Error>)
    ensures
        (r is Ok) == (anchor_of(der@) is Some),
        anchor_of(der@) matches Some(a) ==> store_roots(*final(store)) == store_roots(
            *old(store),
        ).push(a),
        r is Err ==> store_roots(*final(store)) == store_roots(*old(store)),
{
    store.add(&tokio_rustls::rustls::Certificate(der.clone()))
}

/// Relies on rustls's ClientConfig builder (with_no_client_auth) and
/// tokio_rustls::TlsConnector::from: the connector verifies the peer against
/// exactly the given roots and presents no client identity.
#[verifier::external_body]
pub(crate) fn connector_no_identity(
    roots: tokio_rustls::rustls::RootCertStore,
) -> (r: tokio_rustls::TlsConnector)
    ensures
        connector_roots(r) == store_roots(roots),
        connector_identity(r) is None,
{
    let config = tokio_rustls::rustls::ClientConfig::builder()
        .with_safe_defaults()
        .with_root_certificates(roots)
        .with_no_client_auth();
    tokio_rustls::TlsConnector::from(std::sync::Arc::new(config))
}

/// Relies on rustls's ConfigBuilder::with_client_auth_cert: it fails exactly
/// when the key bytes are not accepted as a private key; on success the
/// connector verifies the peer against exactly the given roots and presents
/// exactly this certificate and key.
#[verifier::external_body]
pub(crate) fn connector_with_identity(
    roots: tokio_rustls::rustls::RootCertStore,
    cert_der: Vec<u8>,
    key_der: Vec<u8>,
) -> (r: Result<tokio_rustls::TlsConnector, tokio_rustls::rustls::Error>)
    ensures
        (r is Ok) == client_key_accepted(key_der@),
        r matches Ok(c) ==> (connector_roots(c) == store_roots(roots) && connector_identity(c)
            == Some((cert_der@, key_der@))),
{
    let config = tokio_rustls::rustls::ClientConfig::builder()
        .with_safe_defaults()
        .with_root_certificates(roots)
        .with_client_auth_cert(
            vec![tokio_rustls::rustls::Certificate(cert_der)],
            tokio_rustls::rustls::PrivateKey(key_der),
        )?;
    Ok(tokio_rustls::TlsConnector::from(std::sync::Arc::new(config)))
}

/// Relies on rustls::ServerName::try_from(&str): parses a DNS name or IP
/// address literal; success depends on the characters alone, and the parsed
/// name is the one the given text denotes.
#[verifier::external_body]
pub(crate) fn parse_server_name(
    host: &str,
) -> (r: Result<tokio_rustls::rustls::ServerName, tokio_rustls::rustls::Error>)
    ensures
        (r is Ok) == host_name_ok(host@),
        r matches Ok(name) ==> server_name_denotes(name, host@),
{
    match tokio_rustls::rustls::ServerName::try_from(host) {
        Ok(name) => Ok(name),
        Err(e) => Err(tokio_rustls::rustls::Error::General(e.to_string())),
    }
}

/// Relies on rustls::Error::General: carries a transport-level error's report
/// as an encryption-layer error value.
#[verifier::external_body]
pub(crate) fn tls_error_of_io(e: std::io::Error) -> (r: tokio_rustls::rustls::Error)
{
    tokio_rustls::rustls::Error::General(e.to_string())
}

/// Relies on rustls::Error::General: carries a message as an encryption-layer
/// error value.
#[verifier::external_body]
pub(crate) fn tls_error_msg(msg: &str) -> (r: tokio_rustls::rustls::Error)
{
    tokio_rustls::rustls::Error::General(msg.to_string())
}

} // verus!
