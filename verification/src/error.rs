//! The two-kind failure taxonomy every connection path funnels into: a
//! transport failure (the raw connection itself faulted) or an encryption
//! failure (the connection was made but trust could not be established).

use vstd::prelude::*;

verus! {

/// The encryption layer's own error type.
pub type TlsError = tokio_rustls::rustls::Error;

/// A classified connection failure. `TlsError` covers handshake rejection,
/// trust verification and credential parsing; `IoError` covers raw
/// connect/read/write faults. A caller can always tell "never got a
/// byte-level connection" from "connected but could not establish trust".
pub enum StreamError {
    TlsError(TlsError),
    IoError(std::io::Error),
}

impl StreamError {
    /// The failure happened at the encryption layer.
    pub open spec fn spec_is_encryption(&self) -> bool {
        self matches StreamError::TlsError(_)
    }

    /// The failure happened at the raw transport.
    pub open spec fn spec_is_transport(&self) -> bool {
        self matches StreamError::IoError(_)
    }

    pub fn is_encryption(&self) -> (r: bool)
        ensures
            r == self.spec_is_encryption(),
    {
        match self {
            StreamError::TlsError(_) => true,
            StreamError::IoError(_) => false,
        }
    }

    pub fn is_transport(&self) -> (r: bool)
        ensures
            r == self.spec_is_transport(),
    {
        match self {
            StreamError::TlsError(_) => false,
            StreamError::IoError(_) => true,
        }
    }
}

impl From<TlsError> for StreamError {
    fn from(err: TlsError) -> (r: Self)
        ensures
            r == StreamError::TlsError(err),
    {
        StreamError::TlsError(err)
    }
}

impl vstd::std_specs::convert::FromSpecImpl<TlsError> for StreamError {
    open spec fn obeys_from_spec() -> bool {
        true
    }

    open spec fn from_spec(err: TlsError) -> Self {
        StreamError::TlsError(err)
    }
}

impl From<std::io::Error> for StreamError {
    fn from(err: std::io::Error) -> (r: Self)
        ensures
            r == StreamError::IoError(err),
    {
        StreamError::IoError(err)
    }
}

impl vstd::std_specs::convert::FromSpecImpl<std::io::Error> for StreamError {
    open spec fn obeys_from_spec() -> bool {
        true
    }

    open spec fn from_spec(err: std::io::Error) -> Self {
        StreamError::IoError(err)
    }
}

} // verus!
