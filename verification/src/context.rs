//! Building the encryption configuration for a connection attempt: the
//! shared default (server authentication only) or a per-connection context
//! embedding a client identity for mutual authentication.

use vstd::prelude::*;
use crate::error::StreamError;
use crate::tls_api::{
    anchor_of, client_key_accepted, connector_identity, connector_no_identity, connector_roots,
    connector_with_identity, host_name_ok, load_native_roots, parse_server_name, pem_certs,
    pem_certs_of, pem_keys_of, pem_pkcs8_keys, root_store_add, root_store_empty,
    server_name_denotes, store_roots, tls_error_msg, tls_error_of_io,
};

verus! {

/// A client identity parsed out of a PEM credential: one DER certificate and
/// one DER PKCS#8 private key, presented to the peer during the handshake.
pub struct ClientIdentity {
    pub cert_der: Vec<u8>,
    pub key_der: Vec<u8>,
}

/// What a PEM credential denotes: the last CERTIFICATE section and the last
/// PRIVATE KEY section it holds, or nothing when the document cannot be
/// decoded or either section is missing.
pub open spec fn identity_of(pem: Seq<u8>) -> Option<(Seq<u8>, Seq<u8>)> {
    match pem_certs_of(pem) {
        Some(cs) => match pem_keys_of(pem) {
            Some(ks) => if cs.len() > 0 && ks.len() > 0 {
                Some((cs.last(), ks.last()))
            } else {
                None
            },
            None => None,
        },
        None => None,
    }
}

/// Every DER certificate in the list yields a trust anchor.
pub open spec fn all_roots_accepted(ders: Seq<Seq<u8>>) -> bool {
    forall|i: int| 0 <= i < ders.len() ==> (#[trigger] anchor_of(ders[i])) is Some
}

/// The store holds exactly the anchors of the given DER certificates, in
/// order.
pub open spec fn store_holds_anchors(
    store: tokio_rustls::rustls::RootCertStore,
    ders: Seq<Seq<u8>>,
) -> bool {
    &&& store_roots(store).len() == ders.len()
    &&& forall|i: int|
        0 <= i < ders.len() ==> Some(#[trigger] store_roots(store)[i]) == anchor_of(ders[i])
}

/// An immutable encryption configuration: the connector drives the handshake,
/// trusting the platform authority set; `identity` records the client
/// credential the connector was built with, if any. A context with an
/// identity is built fresh for one connection attempt and never shared, so no
/// connection can observe another's credential.
pub struct EncryptionContext {
    pub connector: tokio_rustls::TlsConnector,
    pub identity: Option<ClientIdentity>,
}

impl EncryptionContext {
    /// Whether this context presents a client identity during the handshake.
    pub open spec fn has_client_identity(&self) -> bool {
        self.identity is Some
    }

    /// The recorded credential agrees with what the connector presents: the
    /// identity field is no mere note, it is what the handshake will show.
    pub open spec fn wf(&self) -> bool {
        match self.identity {
            Some(id) => connector_identity(self.connector) == Some((id.cert_der@, id.key_der@)),
            None => connector_identity(self.connector) is None,
        }
    }
}

/// Byte-for-byte copy of a buffer.
pub(crate) fn copy_bytes(v: &Vec<u8>) -> (r: Vec<u8>)
    ensures
        r@ == v@,
{
    let mut out: Vec<u8> = Vec::new();
    let mut i: usize = 0;
    while i < v.len()
        invariant
            i <= v.len(),
            out@ == v@.take(i as int),
        decreases v.len() - i,
    {
        out.push(v[i]);
        proof {
            assert(v@.take(i as int).push(v@[i as int]) =~= v@.take(i as int + 1));
        }
        i = i + 1;
    }
    proof {
        assert(v@.take(v@.len() as int) =~= v@);
    }
    out
}

/// Parses a client credential: PEM bytes holding at least one certificate and
/// at least one PKCS#8 private key. Returns the last of each, as the
/// handshake presents them; a credential that cannot be decoded or misses
/// either part is a credential-parsing failure, classified at the encryption
/// layer.
pub fn parse_client_identity(pem: &Vec<u8>) -> (r: Result<ClientIdentity, StreamError>)
    ensures
        (r is Ok) <==> identity_of(pem@) is Some,
        r matches Ok(id) ==> identity_of(pem@) == Some((id.cert_der@, id.key_der@)),
        r matches Err(e) ==> e.spec_is_encryption(),
{
    let mut certs = match pem_certs(pem) {
        Ok(cs) => cs,
        Err(e) => return Err(StreamError::TlsError(tls_error_of_io(e))),
    };
    let mut keys = match pem_pkcs8_keys(pem) {
        Ok(ks) => ks,
        Err(e) => return Err(StreamError::TlsError(tls_error_of_io(e))),
    };
    if certs.len() == 0 || keys.len() == 0 {
        return Err(StreamError::TlsError(tls_error_msg(
            "client identity needs at least one certificate and one private key",
        )));
    }
    let ghost cs = certs.deep_view();
    let ghost ks = keys.deep_view();
    let cert_der = match certs.pop() {
        Some(c) => c,
        None => unreached(),
    };
    let key_der = match keys.pop() {
        Some(k) => k,
        None => unreached(),
    };
    proof {
        assert(cs.last() =~= cert_der@);
        assert(ks.last() =~= key_der@);
    }
    Ok(ClientIdentity { cert_der, key_der })
}

/// Fills a fresh root store with the anchors of the given DER certificates,
/// in order. Succeeds exactly when the store accepts every certificate, and
/// fails at the first one it rejects.
pub fn build_root_store(roots: &Vec<Vec<u8>>) -> (r: Result<
    tokio_rustls::rustls::RootCertStore,
    StreamError,
>)
    ensures
        (r is Ok) <==> all_roots_accepted(roots.deep_view()),
        r matches Ok(store) ==> store_holds_anchors(store, roots.deep_view()),
        r matches Err(e) ==> e.spec_is_encryption(),
{
    let ghost dv = roots.deep_view();
    let mut store = root_store_empty();
    let mut i: usize = 0;
    proof {
        assert(dv.len() == roots@.len());
    }
    while i < roots.len()
        invariant
            i <= roots.len(),
            dv == roots.deep_view(),
            dv.len() == roots@.len(),
            all_roots_accepted(dv.take(i as int)),
            store_holds_anchors(store, dv.take(i as int)),
        decreases roots.len() - i,
    {
        proof {
            assert(dv[i as int] =~= roots@[i as int]@);
        }
        let ghost before = store_roots(store);
        match root_store_add(&mut store, &roots[i]) {
            Ok(()) => {},
            Err(e) => {
                proof {
                    assert(anchor_of(dv[i as int]) is None);
                    assert(!all_roots_accepted(dv));
                }
                return Err(StreamError::TlsError(e));
            },
        }
        proof {
            let prev = dv.take(i as int);
            let next = dv.take(i as int + 1);
            assert(anchor_of(dv[i as int]) is Some);
            assert forall|j: int| 0 <= j < next.len() implies (#[trigger] anchor_of(
                next[j],
            )) is Some by {
                assert(next[j] == dv[j]);
                if j < i as int {
                    assert(anchor_of(prev[j]) is Some);
                    assert(prev[j] == dv[j]);
                }
            }
            assert(all_roots_accepted(next));
            assert forall|j: int| 0 <= j < next.len() implies Some(#[trigger] store_roots(
                store,
            )[j]) == anchor_of(next[j]) by {
                assert(next[j] == dv[j]);
                if j < i as int {
                    assert(Some(before[j]) == anchor_of(prev[j]));
                    assert(prev[j] == dv[j]);
                    assert(store_roots(store)[j] == before[j]);
                } else {
                    assert(store_roots(store)[j] == store_roots(store).last());
                }
            }
            assert(store_holds_anchors(store, next));
        }
        i = i + 1;
    }
    proof {
        assert(dv.take(dv.len() as int) =~= dv);
    }
    Ok(store)
}

/// Wraps a connector around the given trust roots and, when one is supplied,
/// the already-parsed client identity. Without an identity this cannot fail;
/// with one, it fails exactly when the encryption layer rejects the key
/// bytes, an encryption failure. The connector trusts exactly the given
/// roots and presents exactly the recorded credential.
pub fn make_context(
    roots: tokio_rustls::rustls::RootCertStore,
    identity: Option<ClientIdentity>,
) -> (r: Result<EncryptionContext, StreamError>)
    ensures
        identity is None ==> r is Ok,
        identity matches Some(id) ==> ((r is Ok) == client_key_accepted(id.key_der@)),
        r matches Ok(ctx) ==> (ctx.identity == identity && ctx.wf() && connector_roots(
            ctx.connector,
        ) == store_roots(roots)),
        r matches Err(e) ==> e.spec_is_encryption(),
{
    match identity {
        None => Ok(
            EncryptionContext { connector: connector_no_identity(roots), identity: None },
        ),
        Some(id) => {
            let cert_copy = copy_bytes(&id.cert_der);
            let key_copy = copy_bytes(&id.key_der);
            match connector_with_identity(roots, cert_copy, key_copy) {
                Ok(connector) => Ok(EncryptionContext { connector, identity: Some(id) }),
                Err(e) => Err(StreamError::TlsError(e)),
            }
        },
    }
}

/// Builds the encryption context for one connection attempt. Without a client
/// identity the result is the server-authentication-only configuration that
/// the process-wide default holds; with one, a fresh context presenting
/// exactly the credential parsed from the given bytes. A malformed or
/// rejected credential fails here, before any handshake could use it.
pub fn tls_connector(client_identity: Option<&Vec<u8>>) -> (r: Result<
    EncryptionContext,
    StreamError,
>)
    ensures
        r matches Ok(ctx) ==> (ctx.has_client_identity() <==> client_identity is Some),
        r matches Ok(ctx) ==> ctx.wf(),
        r matches Ok(ctx) ==> (client_identity matches Some(pem) ==> (ctx.identity matches Some(
            id,
        ) && identity_of(pem@) == Some((id.cert_der@, id.key_der@)) && client_key_accepted(
            id.key_der@,
        ))),
        client_identity matches Some(pem) ==> (identity_of(pem@) is None ==> r is Err),
        client_identity matches Some(pem) ==> (identity_of(pem@) matches Some(cred) ==> (
        !client_key_accepted(cred.1) ==> r is Err)),
        r matches Err(e) ==> e.spec_is_encryption(),
{
    let identity = match client_identity {
        None => None,
        Some(pem) => match parse_client_identity(pem) {
            Ok(id) => Some(id),
            Err(e) => return Err(e),
        },
    };
    let native = match load_native_roots() {
        Ok(v) => v,
        Err(e) => return Err(StreamError::TlsError(tls_error_of_io(e))),
    };
    let store = match build_root_store(&native) {
        Ok(s) => s,
        Err(e) => return Err(e),
    };
    make_context(store, identity)
}

/// Parses the name the peer's identity is verified against: a DNS name or an
/// IP address literal. Independent of the address the raw connection goes to.
pub fn server_name(host: &str) -> (r: Result<tokio_rustls::rustls::ServerName, StreamError>)
    ensures
        (r is Ok) == host_name_ok(host@),
        r matches Ok(name) ==> server_name_denotes(name, host@),
        r matches Err(e) ==> e.spec_is_encryption(),
{
    match parse_server_name(host) {
        Ok(name) => Ok(name),
        Err(e) => Err(StreamError::TlsError(e)),
    }
}

/// Law: a context built with a client identity is distinct from the shared
/// default, which holds none; neither observes the other's credential.
pub proof fn lemma_identity_context_distinct(with_id: EncryptionContext, default: EncryptionContext)
    requires
        with_id.identity is Some,
        default.identity is None,
    ensures
        with_id.has_client_identity(),
        !default.has_client_identity(),
        with_id.identity != default.identity,
{
}

/// Law: two contexts built from credentials that denote different identities
/// record different credentials — neither connection can observe the other's.
pub proof fn lemma_credentials_isolated(
    a: EncryptionContext,
    b: EncryptionContext,
    pem_a: Seq<u8>,
    pem_b: Seq<u8>,
)
    requires
        a.identity matches Some(ia) && identity_of(pem_a) == Some((ia.cert_der@, ia.key_der@)),
        b.identity matches Some(ib) && identity_of(pem_b) == Some((ib.cert_der@, ib.key_der@)),
        identity_of(pem_a) != identity_of(pem_b),
    ensures
        a.identity != b.identity,
{
}

} // verus!
