//! The unified stream: one value that is either a plaintext connection or an
//! encrypted session over it, fixed at construction.

use vstd::prelude::*;
use crate::error::StreamError;
use crate::tls_api::tls_error_of_io;

verus! {

/// The unified connection handle. Exactly one variant is active, chosen at
/// construction and never changed; the handle exclusively owns its
/// connection. Both payloads are boxed so the handle's own footprint stays
/// small and uniform whichever variant is active.
pub enum Stream {
    TcpStream(Box<tokio::net::TcpStream>),
    TlsStream(Box<tokio_rustls::client::TlsStream<tokio::net::TcpStream>>),
}

impl Stream {
    /// Whether the encrypted variant is active.
    pub open spec fn spec_is_encrypted(&self) -> bool {
        self matches Stream::TlsStream(_)
    }

    pub fn is_encrypted(&self) -> (r: bool)
        ensures
            r == self.spec_is_encrypted(),
    {
        match self {
            Stream::TcpStream(_) => false,
            Stream::TlsStream(_) => true,
        }
    }

    /// Wraps the outcome of a raw connection attempt. Success yields the
    /// plaintext variant holding exactly the connection that was opened — no
    /// layer is added, so reads and writes observe the raw bytes themselves.
    /// Failure to open the raw connection is always a transport failure.
    pub fn new_tcp(conn: Result<tokio::net::TcpStream, std::io::Error>) -> (r: Result<
        Stream,
        StreamError,
    >)
        ensures
            (r is Ok) <==> (conn is Ok),
            conn matches Ok(tcp) ==> (r matches Ok(s) && s matches Stream::TcpStream(b) && *b
                == tcp),
            conn matches Err(e) ==> (r matches Err(f) && f == StreamError::IoError(e)),
    {
        match conn {
            Ok(tcp) => Ok(Stream::TcpStream(Box::new(tcp))),
            Err(e) => Err(StreamError::IoError(e)),
        }
    }

    /// Wraps the outcome of the encryption handshake. Success yields the
    /// encrypted variant holding exactly the negotiated session — reads and
    /// writes then observe application plaintext only. A failed handshake is
    /// always an encryption failure, and no stream value exists for it; the
    /// raw connection is discarded, never reused as plaintext.
    pub fn new_tls(handshake: Result<
        tokio_rustls::client::TlsStream<tokio::net::TcpStream>,
        std::io::Error,
    >) -> (r: Result<Stream, StreamError>)
        ensures
            (r is Ok) <==> (handshake is Ok),
            handshake matches Ok(tls) ==> (r matches Ok(s) && s matches Stream::TlsStream(b)
                && *b == tls),
            handshake is Err ==> (r matches Err(e) && e.spec_is_encryption()),
    {
        match handshake {
            Ok(tls) => Ok(Stream::TlsStream(Box::new(tls))),
            Err(e) => Err(StreamError::TlsError(tls_error_of_io(e))),
        }
    }
}

} // verus!
