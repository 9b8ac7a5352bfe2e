use unistream::context::{
    build_root_store, make_context, parse_client_identity, server_name, tls_connector,
};
use unistream::error::StreamError;

fn pem_section(kind: &str, b64: &str) -> String {
    format!("-----BEGIN {}-----\n{}\n-----END {}-----\n", kind, b64, kind)
}

// base64 of the DER bytes [1, 2, 3, 4]
const CERT_A: &str = "AQIDBA==";
// base64 of the DER bytes [9, 9]
const CERT_B: &str = "CQk=";
// base64 of the DER bytes [5, 6, 7, 8]
const KEY_ARBITRARY: &str = "BQYHCA==";
// base64 of a PKCS#8 Ed25519 private key whose seed is 32 bytes of 0x01
const KEY_ED25519: &str = "MC4CAQAwBQYDK2VwBCIEIAEBAQEBAQEBAQEBAQEBAQEBAQEBAQEBAQEBAQEBAQEB";

#[test]
fn parse_ok_single_cert_and_key() {
    let mut pem = pem_section("CERTIFICATE", CERT_A);
    pem.push_str(&pem_section("PRIVATE KEY", KEY_ARBITRARY));
    let id = parse_client_identity(&pem.into_bytes()).ok().unwrap();
    assert_eq!(id.cert_der, vec![1u8, 2, 3, 4]);
    assert_eq!(id.key_der, vec![5u8, 6, 7, 8]);
}

#[test]
fn parse_picks_last_cert() {
    let mut pem = pem_section("CERTIFICATE", CERT_A);
    pem.push_str(&pem_section("CERTIFICATE", CERT_B));
    pem.push_str(&pem_section("PRIVATE KEY", KEY_ARBITRARY));
    let id = parse_client_identity(&pem.into_bytes()).ok().unwrap();
    assert_eq!(id.cert_der, vec![9u8, 9]);
}

#[test]
fn parse_missing_key_is_credential_failure() {
    let pem = pem_section("CERTIFICATE", CERT_A);
    let err = parse_client_identity(&pem.into_bytes()).err().unwrap();
    assert!(matches!(err, StreamError::TlsError(_)));
    assert!(err.is_encryption());
    assert!(!err.is_transport());
}

#[test]
fn parse_missing_cert_is_credential_failure() {
    let pem = pem_section("PRIVATE KEY", KEY_ARBITRARY);
    let err = parse_client_identity(&pem.into_bytes()).err().unwrap();
    assert!(matches!(err, StreamError::TlsError(_)));
}

#[test]
fn parse_empty_input_fails() {
    let err = parse_client_identity(&Vec::new()).err().unwrap();
    assert!(matches!(err, StreamError::TlsError(_)));
}

#[test]
fn parse_undecodable_section_fails() {
    let mut pem = pem_section("CERTIFICATE", "!!!!");
    pem.push_str(&pem_section("PRIVATE KEY", KEY_ARBITRARY));
    let err = parse_client_identity(&pem.into_bytes()).err().unwrap();
    assert!(matches!(err, StreamError::TlsError(_)));
}

#[test]
fn root_store_accepts_no_roots() {
    assert!(build_root_store(&Vec::new()).is_ok());
}

#[test]
fn root_store_rejects_garbage_certificate() {
    let err = build_root_store(&vec![vec![1u8, 2, 3]]).err().unwrap();
    assert!(matches!(err, StreamError::TlsError(_)));
}

#[test]
fn context_without_identity_holds_none() {
    let store = build_root_store(&Vec::new()).ok().unwrap();
    let ctx = make_context(store, None).ok().unwrap();
    assert!(ctx.identity.is_none());
}

#[test]
fn context_with_identity_distinct_from_default() {
    let mut pem = pem_section("CERTIFICATE", CERT_A);
    pem.push_str(&pem_section("PRIVATE KEY", KEY_ED25519));
    let id = parse_client_identity(&pem.into_bytes()).ok().unwrap();

    let store = build_root_store(&Vec::new()).ok().unwrap();
    let with_id = make_context(store, Some(id)).ok().unwrap();
    assert!(with_id.identity.is_some());

    let store = build_root_store(&Vec::new()).ok().unwrap();
    let default = make_context(store, None).ok().unwrap();
    assert!(default.identity.is_none());
}

#[test]
fn contexts_record_their_own_credentials() {
    let mut pem_a = pem_section("CERTIFICATE", CERT_A);
    pem_a.push_str(&pem_section("PRIVATE KEY", KEY_ARBITRARY));
    let id_a = parse_client_identity(&pem_a.into_bytes()).ok().unwrap();

    let mut pem_b = pem_section("CERTIFICATE", CERT_B);
    pem_b.push_str(&pem_section("PRIVATE KEY", KEY_ARBITRARY));
    let id_b = parse_client_identity(&pem_b.into_bytes()).ok().unwrap();

    assert_ne!(id_a.cert_der, id_b.cert_der);
    assert_eq!(id_a.cert_der, vec![1u8, 2, 3, 4]);
    assert_eq!(id_b.cert_der, vec![9u8, 9]);
}

#[test]
fn context_rejects_undecodable_key_material() {
    // the arbitrary key bytes parse as a PEM section but are no private key
    let mut pem = pem_section("CERTIFICATE", CERT_A);
    pem.push_str(&pem_section("PRIVATE KEY", KEY_ARBITRARY));
    let id = parse_client_identity(&pem.into_bytes()).ok().unwrap();
    let store = build_root_store(&Vec::new()).ok().unwrap();
    let err = make_context(store, Some(id)).err().unwrap();
    assert!(matches!(err, StreamError::TlsError(_)));
}

#[test]
fn connector_fails_on_malformed_identity_before_any_handshake() {
    let pem = pem_section("CERTIFICATE", CERT_A).into_bytes();
    let err = tls_connector(Some(&pem)).err().unwrap();
    assert!(matches!(err, StreamError::TlsError(_)));
}

#[test]
fn default_connector_never_holds_an_identity() {
    // the platform trust store decides success; either outcome obeys the contract
    match tls_connector(None) {
        Ok(ctx) => assert!(ctx.identity.is_none()),
        Err(e) => assert!(matches!(e, StreamError::TlsError(_))),
    }
}

#[test]
fn server_name_accepts_dns_name() {
    assert!(server_name("example.org").is_ok());
}

#[test]
fn server_name_accepts_ip_literal() {
    assert!(server_name("192.168.0.1").is_ok());
}

#[test]
fn server_name_rejects_invalid_name() {
    let err = server_name("not a host name").err().unwrap();
    assert!(matches!(err, StreamError::TlsError(_)));
    assert!(err.is_encryption());
}

#[test]
fn server_name_returns_the_given_host() {
    match server_name("example.org").ok().unwrap() {
        tokio_rustls::rustls::ServerName::DnsName(d) => {
            let host: &str = d.as_ref();
            assert_eq!(host, "example.org");
        },
        _ => panic!("a DNS host must parse as a DNS name"),
    }
}
