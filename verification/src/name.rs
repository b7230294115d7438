//! Destination identity types.
//!
//! A `TlsServerName` is the backend-agnostic server identity used for
//! certificate-hostname verification during the TLS handshake.  A
//! `ConnectionKey` identifies a logical destination (host and port)
//! and keys the idle-connection pool.  Both compare by value and are
//! never mutated once built.

use vstd::prelude::*;

verus! {

/// Server identity for the TLS handshake: a host-name-like string,
/// compared and hashed by its underlying value.
#[derive(Debug, Eq, Hash)]
pub struct TlsServerName(pub String);

impl Clone for TlsServerName {
    /// An exact copy of the identity.
    fn clone(&self) -> (r: Self)
        ensures
            r == *self,
    {
        TlsServerName(self.0.clone())
    }
}

impl View for TlsServerName {
    type V = Seq<char>;

    open spec fn view(&self) -> Seq<char> {
        self.0@
    }
}

impl PartialEq for TlsServerName {
    fn eq(&self, other: &TlsServerName) -> bool {
        self.0 == other.0
    }
}

impl vstd::std_specs::cmp::PartialEqSpecImpl for TlsServerName {
    open spec fn obeys_eq_spec() -> bool {
        true
    }

    open spec fn eq_spec(&self, other: &TlsServerName) -> bool {
        self.0@ == other.0@
    }
}

impl From<String> for TlsServerName {
    /// Wraps a host name as a server identity.
    fn from(value: String) -> (r: TlsServerName) {
        TlsServerName(value)
    }
}

impl vstd::std_specs::convert::FromSpecImpl<String> for TlsServerName {
    open spec fn obeys_from_spec() -> bool {
        true
    }

    open spec fn from_spec(value: String) -> TlsServerName {
        TlsServerName(value)
    }
}

/// A logical destination: host and port.  Used as the pooling key and
/// as handshake input; constructed per request and never mutated.
#[derive(Debug, Eq, Hash)]
pub struct ConnectionKey {
    pub host: String,
    pub port: u16,
}

impl Clone for ConnectionKey {
    /// An exact copy of the key.
    fn clone(&self) -> (r: Self)
        ensures
            r == *self,
    {
        ConnectionKey { host: self.host.clone(), port: self.port }
    }
}

impl View for ConnectionKey {
    type V = (Seq<char>, u16);

    open spec fn view(&self) -> (Seq<char>, u16) {
        (self.host@, self.port)
    }
}

impl PartialEq for ConnectionKey {
    fn eq(&self, other: &ConnectionKey) -> bool {
        self.host == other.host && self.port == other.port
    }
}

impl vstd::std_specs::cmp::PartialEqSpecImpl for ConnectionKey {
    open spec fn obeys_eq_spec() -> bool {
        true
    }

    open spec fn eq_spec(&self, other: &ConnectionKey) -> bool {
        self.host@ == other.host@ && self.port == other.port
    }
}

impl ConnectionKey {
    /// Builds the key for one destination.
    pub fn new(host: String, port: u16) -> (r: ConnectionKey)
        ensures
            r.host@ == host@,
            r.port == port,
    {
        ConnectionKey { host, port }
    }

    /// The server identity this key carries for a TLS handshake.
    pub fn server_name(&self) -> (r: TlsServerName)
        ensures
            r@ == self.host@,
    {
        TlsServerName(self.host.clone())
    }
}

} // verus!
