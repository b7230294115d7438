use connectors::alpn::{default_alpn, offers_contain, protocol_eq, select_alpn};
use connectors::errors::{HandshakeError, IoError, IoErrorKind, TlsError};
use connectors::name::{ConnectionKey, TlsServerName};
use connectors::tls::{
    tls_connect_step, HyperTlsConnector, TlsConnectAction, TlsConnectEvent, TlsConnectState,
};

#[test]
fn default_alpn_prefers_h2_then_http11() {
    let alpn = default_alpn();
    assert_eq!(alpn.len(), 2);
    assert_eq!(alpn[0], b"h2".to_vec());
    assert_eq!(alpn[1], b"http/1.1".to_vec());
}

#[test]
fn default_alpn_matches_the_protocol_strings() {
    let alpn = default_alpn();
    assert_eq!(alpn[0], "h2".as_bytes().to_vec());
    assert_eq!(alpn[1], "http/1.1".as_bytes().to_vec());
}

#[test]
fn server_supporting_only_http11_negotiates_http11() {
    // A client offering ["h2", "http/1.1"] against a server that only
    // supports "http/1.1" gets "http/1.1", not an error.
    let client = default_alpn();
    let server = vec![b"http/1.1".to_vec()];
    let negotiated = select_alpn(&server, &client);
    assert_eq!(negotiated, Some(b"http/1.1".to_vec()));
}

#[test]
fn server_prefers_its_own_order() {
    let client = vec![b"http/1.1".to_vec(), b"h2".to_vec()];
    let server = vec![b"h2".to_vec(), b"http/1.1".to_vec()];
    assert_eq!(select_alpn(&server, &client), Some(b"h2".to_vec()));
}

#[test]
fn no_common_protocol_selects_nothing() {
    let client = vec![b"h2".to_vec()];
    let server = vec![b"http/1.1".to_vec()];
    assert_eq!(select_alpn(&server, &client), None);
}

#[test]
fn protocol_comparison_is_by_value() {
    assert!(protocol_eq(&b"h2".to_vec(), &b"h2".to_vec()));
    assert!(!protocol_eq(&b"h2".to_vec(), &b"h3".to_vec()));
    assert!(offers_contain(&default_alpn(), &b"h2".to_vec()));
    assert!(!offers_contain(&default_alpn(), &b"h3".to_vec()));
}

#[test]
fn connector_keeps_its_inner_connector() {
    let connector = HyperTlsConnector::new_with_tls_default(42u32, Some(vec!["h2", "http/1.1"]));
    assert_eq!(*connector.inner_connector(), 42u32);
    // The handshake configuration is shared, read-only and cloneable.
    let _config = connector.tls_connector().clone();
    let copy = connector.clone();
    assert_eq!(*copy.inner_connector(), 42u32);
}

#[test]
fn composing_over_an_existing_configuration() {
    let first = HyperTlsConnector::new_with_tls_default(1u8, Some(vec!["h2"]));
    let second = HyperTlsConnector::new(5u8, first.tls_connector().clone());
    assert_eq!(*second.inner_connector(), 5u8);
}

#[test]
fn connector_without_alpn_builds_too() {
    let connector = HyperTlsConnector::new_with_tls_default(7u32, None);
    assert_eq!(*connector.inner_connector(), 7u32);
}

#[test]
fn default_connector_uses_default_inner() {
    let connector: HyperTlsConnector<u64> = Default::default();
    assert_eq!(*connector.inner_connector(), 0u64);
}

#[test]
fn inner_connector_error_passes_through_unchanged() {
    let (state, action) = tls_connect_step(TlsConnectState::Start, TlsConnectEvent::Begin);
    assert_eq!(action, TlsConnectAction::ConnectInner);
    let error = IoError::new(IoErrorKind::ConnectionReset, String::from("peer reset"));
    let (state, action) = tls_connect_step(state, TlsConnectEvent::InnerFailed { error });
    assert_eq!(action, TlsConnectAction::Report);
    match state {
        TlsConnectState::Failed { error: TlsError::Io(io) } => {
            assert_eq!(io.kind, IoErrorKind::ConnectionReset);
            assert_eq!(io.detail, "peer reset");
        },
        other => panic!("expected a transport failure, got {:?}", other),
    }
}

#[test]
fn handshake_failure_is_the_tls_layers_own() {
    let (state, _) = tls_connect_step(TlsConnectState::Start, TlsConnectEvent::Begin);
    let (state, _) = tls_connect_step(state, TlsConnectEvent::InnerOk);
    let error = HandshakeError { detail: String::from("bad certificate") };
    let (state, action) = tls_connect_step(state, TlsConnectEvent::HandshakeFailed { error });
    assert_eq!(action, TlsConnectAction::Report);
    match state {
        TlsConnectState::Failed { error: TlsError::Rustls(hs) } => {
            assert_eq!(hs.detail, "bad certificate");
        },
        other => panic!("expected a handshake failure, got {:?}", other),
    }
}

#[test]
fn successful_handshake_wraps_the_stream() {
    let (state, action) = tls_connect_step(TlsConnectState::Start, TlsConnectEvent::Begin);
    assert_eq!(action, TlsConnectAction::ConnectInner);
    let (state, action) = tls_connect_step(state, TlsConnectEvent::InnerOk);
    assert_eq!(action, TlsConnectAction::Handshake);
    let (state, action) = tls_connect_step(state, TlsConnectEvent::HandshakeOk);
    assert_eq!(action, TlsConnectAction::WrapStream);
    assert!(matches!(state, TlsConnectState::Connected));
}

#[test]
fn tls_error_flattens_into_an_io_error() {
    let io = IoError::new(IoErrorKind::TimedOut, String::from("slow"));
    let back = IoError::from(TlsError::Io(io));
    assert_eq!(back.kind, IoErrorKind::TimedOut);
    assert_eq!(back.detail, "slow");
    let hs = HandshakeError { detail: String::from("no trust anchor") };
    let wrapped = IoError::from(TlsError::Rustls(hs));
    assert_eq!(wrapped.kind, IoErrorKind::Other);
    assert_eq!(wrapped.detail, "no trust anchor");
}

#[test]
fn server_name_compares_by_value() {
    let a = TlsServerName::from(String::from("example.com"));
    let b = TlsServerName(String::from("example.com"));
    let c = TlsServerName(String::from("example.org"));
    assert_eq!(a, b);
    assert_ne!(a, c);
    assert_eq!(a.0, "example.com");
}

#[test]
fn connection_key_carries_its_server_name() {
    let k = ConnectionKey::new(String::from("example.com"), 443);
    assert_eq!(k.port, 443);
    assert_eq!(k.server_name(), TlsServerName(String::from("example.com")));
    let same = ConnectionKey::new(String::from("example.com"), 443);
    let other = ConnectionKey::new(String::from("example.com"), 80);
    assert_eq!(k, same);
    assert_ne!(k, other);
}
