//! A unified transport for a network-protocol client: one connection handle
//! that is either a plaintext byte stream or the same stream wrapped in a
//! negotiated encrypted tunnel, behind one read/write/shutdown interface.
//!
//! This crate holds the verified core: choosing and building the encryption
//! configuration (shared default trust, or a per-connection client identity
//! for mutual authentication), classifying every failure as a transport or an
//! encryption fault, and wrapping the outcome of each connection step into
//! the unified stream value. The asynchronous socket and handshake calls
//! themselves are driven by the embedding program.

pub mod context;
pub mod error;
pub mod stream;
pub mod tls_api;
