//! The TLS connector layer.
//!
//! `HyperTlsConnector` wraps an inner connector and adds TLS to the
//! connections it produces: the inner connector resolves the key to a
//! raw stream, a TLS client handshake runs over that stream using the
//! shared, immutable configuration, and the encrypted stream is then
//! adapted through the I/O bridge for the framing layer.  Wrapping is
//! purely additive: an inner connector's error passes through this
//! layer unchanged, under the layer's own transport variant, and a
//! handshake failure is terminal for the attempt — never retried
//! here.
//!
//! The handshake itself and the awaiting around it belong to the
//! caller's runtime; the step function here fixes, state by state,
//! what happens after each outcome.

use vstd::prelude::*;

use crate::errors::{HandshakeError, IoError, TlsError};
use vstd::string::StrSliceExecFns;
use vstd::string::StringSliceAdditionalSpecFns;

verus! {

#[verifier::external_type_specification]
#[verifier::external_body]
pub struct ExTlsConnector(tokio_rustls::TlsConnector);

/// Relies on the derived `Clone` of `tokio_rustls::TlsConnector`,
/// which copies the shared reference to the immutable configuration.
pub assume_specification[ <tokio_rustls::TlsConnector as Clone>::clone ](
    c: &tokio_rustls::TlsConnector,
) -> tokio_rustls::TlsConnector;

/// Relies on `rustls::ClientConfig::builder`,
/// `rustls::RootCertStore::extend` over the `webpki_roots` bundle and
/// `tokio_rustls::TlsConnector::from`: builds the immutable handshake
/// configuration — bundled public trust roots, no client
/// authentication, exactly the given ALPN protocols — shared by every
/// handshake this connector performs.
#[verifier::external_body]
fn build_rustls_connector(alpn: &Vec<Vec<u8>>) -> tokio_rustls::TlsConnector {
    let mut roots = rustls::RootCertStore::empty();
    roots.extend(webpki_roots::TLS_SERVER_ROOTS.iter().cloned());
    let mut cfg = rustls::ClientConfig::builder().with_root_certificates(
        roots,
    ).with_no_client_auth();
    cfg.alpn_protocols = alpn.clone();
    tokio_rustls::TlsConnector::from(std::sync::Arc::new(cfg))
}

/// A connector that adds TLS over the connections of an inner
/// connector.  The configuration is built once and never mutated;
/// the protocol list it advertises is recorded beside it, so
/// contracts downstream can speak of what a handshake will offer.
#[derive(Clone)]
pub struct HyperTlsConnector<C> {
    inner_connector: C,
    tls_connector: tokio_rustls::TlsConnector,
    advertised_alpn: Ghost<Seq<Seq<u8>>>,
}

impl<C> HyperTlsConnector<C> {
    /// The wrapped inner connector.
    pub closed spec fn spec_inner(&self) -> C {
        self.inner_connector
    }

    /// The TLS handshake configuration.
    pub closed spec fn spec_tls(&self) -> tokio_rustls::TlsConnector {
        self.tls_connector
    }

    /// The ALPN protocol list the configuration advertises, in
    /// preference order.  Known exactly for a connector built here
    /// from a protocol list; unconstrained for one composed over a
    /// caller-supplied configuration.
    pub closed spec fn spec_alpn(&self) -> Seq<Seq<u8>> {
        self.advertised_alpn@
    }

    /// Composes this layer over an inner connector with an existing
    /// handshake configuration (whose advertised protocols only the
    /// caller knows).
    pub fn new(inner_connector: C, tls_connector: tokio_rustls::TlsConnector) -> (r: Self)
        ensures
            r.spec_inner() == inner_connector,
            r.spec_tls() == tls_connector,
    {
        Self {
            inner_connector,
            tls_connector,
            advertised_alpn: Ghost(vstd::pervasive::arbitrary()),
        }
    }

    /// Composes this layer over an inner connector, building a fresh
    /// configuration from the bundled trust roots: it advertises
    /// exactly the given protocols, byte for byte and in order, and
    /// `None` advertises no protocol at all.
    pub fn new_with_tls_default(inner_connector: C, alpn: Option<Vec<&str>>) -> (r: Self)
        ensures
            r.spec_inner() == inner_connector,
            alpn matches Some(list) ==> {
                &&& r.spec_alpn().len() == list@.len()
                &&& forall|j: int| 0 <= j < list@.len() ==> r.spec_alpn()[j] == list@[j].spec_bytes()
            },
            alpn is None ==> r.spec_alpn() == Seq::<Seq<u8>>::empty(),
    {
        let protocols: Vec<Vec<u8>> = match alpn {
            Some(list) => {
                let mut out: Vec<Vec<u8>> = Vec::new();
                let mut i: usize = 0;
                while i < list.len()
                    invariant
                        i <= list@.len(),
                        out@.len() == i,
                        forall|j: int| 0 <= j < i ==> out@[j]@ == list@[j].spec_bytes(),
                    decreases list@.len() - i,
                {
                    out.push(list[i].as_bytes_vec());
                    i = i + 1;
                }
                out
            },
            None => Vec::new(),
        };
        let tls_connector = build_rustls_connector(&protocols);
        let r = Self {
            inner_connector,
            tls_connector,
            advertised_alpn: Ghost(protocols@.map_values(|v: Vec<u8>| v@)),
        };
        proof {
            if protocols@.len() == 0 {
                assert(r.spec_alpn() =~= Seq::<Seq<u8>>::empty());
            }
        }
        r
    }

    /// The wrapped inner connector, by reference.
    pub fn inner_connector(&self) -> (r: &C)
        ensures
            r == self.spec_inner(),
    {
        &self.inner_connector
    }

    /// The handshake configuration, by reference.
    pub fn tls_connector(&self) -> (r: &tokio_rustls::TlsConnector)
        ensures
            r == self.spec_tls(),
    {
        &self.tls_connector
    }
}

impl<C: Default> Default for HyperTlsConnector<C> {
    /// This layer over the inner connector's own default, advertising
    /// the default ALPN preference: `h2` first, then `http/1.1` — an
    /// order of preference, not an exclusive choice.
    fn default() -> (r: Self)
        ensures
            call_ensures(C::default, (), r.spec_inner()),
            r.spec_alpn().len() == 2,
            r.spec_alpn()[0] == "h2".spec_bytes(),
            r.spec_alpn()[1] == "http/1.1".spec_bytes(),
    {
        let inner = C::default();
        let mut protocols: Vec<&str> = Vec::new();
        protocols.push("h2");
        protocols.push("http/1.1");
        HyperTlsConnector::new_with_tls_default(inner, Some(protocols))
    }
}

/// A connector advertising the default preference — `h2` before
/// `http/1.1` — against a server supporting only `http/1.1`
/// negotiates `http/1.1`, not nothing: the client's list expresses
/// an order of preference, and the server selects whichever offered
/// protocol it supports.
pub proof fn lemma_default_preference_negotiates_http11<C>(c: HyperTlsConnector<C>)
    requires
        c.spec_alpn().len() == 2,
        c.spec_alpn()[0] == "h2".spec_bytes(),
        c.spec_alpn()[1] == "http/1.1".spec_bytes(),
    ensures
        crate::alpn::spec_negotiated(seq!["http/1.1".spec_bytes()], c.spec_alpn()) == Some(
            "http/1.1".spec_bytes(),
        ),
{
    let server = seq!["http/1.1".spec_bytes()];
    assert(server.len() == 1);
    assert(server.first() == "http/1.1".spec_bytes());
    assert(crate::alpn::spec_contains(c.spec_alpn(), "http/1.1".spec_bytes())) by {
        assert(c.spec_alpn()[1] == "http/1.1".spec_bytes());
    }
}

/// Where one connect attempt of the TLS layer stands.
#[derive(Debug)]
pub enum TlsConnectState {
    /// Nothing has happened yet.
    Start,
    /// The inner connector is resolving the key to a raw stream.
    AwaitingInner,
    /// The handshake is running over the resolved stream.
    AwaitingHandshake,
    /// The encrypted stream is established and wrapped.
    Connected,
    /// The attempt failed; terminal, never retried here.
    Failed { error: TlsError },
}

/// What the runtime reports back to the step function.
#[derive(Debug)]
pub enum TlsConnectEvent {
    /// The caller asked for a connection.
    Begin,
    /// The inner connector produced its stream.
    InnerOk,
    /// The inner connector failed.
    InnerFailed { error: IoError },
    /// The handshake completed.
    HandshakeOk,
    /// The handshake or certificate validation failed.
    HandshakeFailed { error: HandshakeError },
}

/// What the runtime must do next.
#[derive(Clone, Copy, PartialEq, Eq, Structural, Debug)]
pub enum TlsConnectAction {
    /// Ask the inner connector for a raw stream to the key.
    ConnectInner,
    /// Run the TLS client handshake with the key's server identity.
    Handshake,
    /// Adapt the encrypted stream through the I/O bridge and hand it
    /// to the caller.
    WrapStream,
    /// Surface the failure to the caller.
    Report,
}

/// The events each state of a TLS connect attempt accepts.  `Connected`
/// and `Failed` accept none: success hands the connection away and a
/// failed attempt is never retried.
pub open spec fn tls_step_allowed(state: TlsConnectState, event: TlsConnectEvent) -> bool {
    match (state, event) {
        (TlsConnectState::Start, TlsConnectEvent::Begin) => true,
        (TlsConnectState::AwaitingInner, TlsConnectEvent::InnerOk) => true,
        (TlsConnectState::AwaitingInner, TlsConnectEvent::InnerFailed { .. }) => true,
        (TlsConnectState::AwaitingHandshake, TlsConnectEvent::HandshakeOk) => true,
        (TlsConnectState::AwaitingHandshake, TlsConnectEvent::HandshakeFailed { .. }) => true,
        _ => false,
    }
}

/// One step of a TLS connect attempt.
///
/// An inner connector's failure is surfaced unchanged under the
/// transport variant — wrapping alters nothing it did not itself
/// produce — and a handshake failure is surfaced under the handshake
/// variant, terminal for the attempt.
pub fn tls_connect_step(state: TlsConnectState, event: TlsConnectEvent) -> (r: (
    TlsConnectState,
    TlsConnectAction,
))
    requires
        tls_step_allowed(state, event),
    ensures
        state is Start ==> r == ((
            TlsConnectState::AwaitingInner,
            TlsConnectAction::ConnectInner,
        )),
        state is AwaitingInner && event is InnerOk ==> r == ((
            TlsConnectState::AwaitingHandshake,
            TlsConnectAction::Handshake,
        )),
        event matches TlsConnectEvent::InnerFailed { error } ==> r == ((
            TlsConnectState::Failed { error: TlsError::Io(error) },
            TlsConnectAction::Report,
        )),
        state is AwaitingHandshake && event is HandshakeOk ==> r == ((
            TlsConnectState::Connected,
            TlsConnectAction::WrapStream,
        )),
        event matches TlsConnectEvent::HandshakeFailed { error } ==> r == ((
            TlsConnectState::Failed { error: TlsError::Rustls(error) },
            TlsConnectAction::Report,
        )),
{
    match (state, event) {
        (TlsConnectState::Start, TlsConnectEvent::Begin) => (
            TlsConnectState::AwaitingInner,
            TlsConnectAction::ConnectInner,
        ),
        (TlsConnectState::AwaitingInner, TlsConnectEvent::InnerOk) => (
            TlsConnectState::AwaitingHandshake,
            TlsConnectAction::Handshake,
        ),
        (TlsConnectState::AwaitingInner, TlsConnectEvent::InnerFailed { error }) => (
            TlsConnectState::Failed { error: TlsError::Io(error) },
            TlsConnectAction::Report,
        ),
        (TlsConnectState::AwaitingHandshake, TlsConnectEvent::HandshakeOk) => (
            TlsConnectState::Connected,
            TlsConnectAction::WrapStream,
        ),
        (TlsConnectState::AwaitingHandshake, TlsConnectEvent::HandshakeFailed { error }) => (
            TlsConnectState::Failed { error: TlsError::Rustls(error) },
            TlsConnectAction::Report,
        ),
        _ => (TlsConnectState::Start, TlsConnectAction::Report),
    }
}

} // verus!
