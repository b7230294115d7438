//! Error taxonomy of the connector layers.
//!
//! Each layer wraps the error of the layer below it, never discards
//! it, so a caller can tell which layer failed: transport failures
//! pass through a TLS connector unchanged, handshake failures are the
//! TLS layer's own, and completion-engine failures surface through the
//! I/O bridge.

use vstd::prelude::*;

verus! {

/// Kind of a low-level transport failure, as the raw stream reports it.
#[derive(Clone, Copy, PartialEq, Eq, Structural, Debug)]
pub enum IoErrorKind {
    ConnectionRefused,
    ConnectionReset,
    TimedOut,
    UnexpectedEof,
    Other,
}

/// A transport-layer failure: its kind plus a human-readable detail.
#[derive(Debug)]
pub struct IoError {
    pub kind: IoErrorKind,
    pub detail: String,
}

impl IoError {
    /// Builds a transport error from its kind and detail text.
    pub fn new(kind: IoErrorKind, detail: String) -> (r: IoError)
        ensures
            r.kind == kind,
            r.detail@ == detail@,
    {
        IoError { kind, detail }
    }
}

/// A TLS handshake or certificate failure, normalized into one kind
/// whatever the backend reported.
#[derive(Debug)]
pub struct HandshakeError {
    pub detail: String,
}

/// Error of the TLS connector layer.
///
/// `Io` carries an inner transport failure through unchanged; `Rustls`
/// is a failure of the handshake itself.
#[derive(Debug)]
pub enum TlsError {
    Io(IoError),
    Rustls(HandshakeError),
}

impl TlsError {
    /// True when this error came from the layer below, not from the
    /// handshake.
    pub fn is_transport(&self) -> (r: bool)
        ensures
            r == self is Io,
    {
        match self {
            TlsError::Io(_) => true,
            TlsError::Rustls(_) => false,
        }
    }
}

impl From<TlsError> for IoError {
    /// Flattens a TLS-layer error into a transport error: an inner
    /// transport failure is returned unchanged, a handshake failure
    /// keeps its detail under the `Other` kind.
    fn from(e: TlsError) -> (r: IoError) {
        match e {
            TlsError::Io(io) => io,
            TlsError::Rustls(hs) => IoError { kind: IoErrorKind::Other, detail: hs.detail },
        }
    }
}

impl vstd::std_specs::convert::FromSpecImpl<TlsError> for IoError {
    open spec fn obeys_from_spec() -> bool {
        true
    }

    open spec fn from_spec(e: TlsError) -> IoError {
        match e {
            TlsError::Io(io) => io,
            TlsError::Rustls(hs) => IoError { kind: IoErrorKind::Other, detail: hs.detail },
        }
    }
}

} // verus!
