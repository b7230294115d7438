use connectors::errors::{IoError, IoErrorKind};
use connectors::name::ConnectionKey;
use connectors::pool::{
    pool_connect_step, Pool, PoolConnectAction, PoolConnectEvent, PoolConnectState,
};

fn key(host: &str, port: u16) -> ConnectionKey {
    ConnectionKey::new(String::from(host), port)
}

#[test]
fn released_connection_is_reused() {
    let mut pool = Pool::new(2, 1000);
    let k = key("example.com", 443);
    assert!(pool.release(&k, 7, 0));
    assert_eq!(pool.idle_count(&k), 1);
    assert_eq!(pool.checkout(&k, 10), Some(7));
    assert_eq!(pool.idle_count(&k), 0);
}

#[test]
fn second_release_of_same_connection_is_rejected() {
    let mut pool = Pool::new(4, 1000);
    let k = key("example.com", 443);
    assert!(pool.release(&k, 7, 0));
    // Releasing the same connection twice never duplicates it.
    assert!(!pool.release(&k, 7, 5));
    assert_eq!(pool.idle_count(&k), 1);
    // Not even under another key.
    let other = key("example.org", 443);
    assert!(!pool.release(&other, 7, 5));
    assert_eq!(pool.idle_count(&other), 0);
}

#[test]
fn capacity_overflow_drops_the_extra_connection() {
    let n: usize = 3;
    let mut pool = Pool::new(n, 1000);
    let k = key("example.com", 443);
    for c in 0..n as u64 {
        assert!(pool.release(&k, c + 1, 0));
    }
    // Returning one more than the capacity drops it, exactly one.
    assert!(!pool.release(&k, 99, 0));
    assert_eq!(pool.idle_count(&k), n);
    assert_eq!(pool.checkout(&k, 1), Some(1));
    assert_eq!(pool.checkout(&k, 1), Some(2));
    assert_eq!(pool.checkout(&k, 1), Some(3));
    assert_eq!(pool.checkout(&k, 1), None);
}

#[test]
fn capacity_is_per_key() {
    let mut pool = Pool::new(1, 1000);
    let a = key("a.example", 443);
    let b = key("b.example", 443);
    assert!(pool.release(&a, 1, 0));
    assert!(pool.release(&b, 2, 0));
    assert!(!pool.release(&a, 3, 0));
    assert_eq!(pool.idle_count(&a), 1);
    assert_eq!(pool.idle_count(&b), 1);
}

#[test]
fn checkout_never_yields_one_connection_twice() {
    let mut pool = Pool::new(2, 1000);
    let k = key("example.com", 443);
    assert!(pool.release(&k, 1, 0));
    assert!(pool.release(&k, 2, 0));
    let first = pool.checkout(&k, 5).expect("one idle connection");
    let second = pool.checkout(&k, 5).expect("another idle connection");
    assert_ne!(first, second);
    assert_eq!(pool.checkout(&k, 5), None);
}

#[test]
fn holds_tracks_checkout_and_release() {
    let mut pool = Pool::new(2, 1000);
    let k = key("example.com", 443);
    assert!(!pool.holds(7));
    assert!(pool.release(&k, 7, 0));
    assert!(pool.holds(7));
    assert_eq!(pool.checkout(&k, 1), Some(7));
    assert!(!pool.holds(7));
}

#[test]
fn idle_timeout_scenario() {
    // Capacity 2, idle timeout 100 ms, key example.com:443.
    let mut pool = Pool::new(2, 100);
    let k = key("example.com", 443);
    // Establish three connections and return all three: exactly two
    // remain idle.
    assert!(pool.release(&k, 1, 0));
    assert!(pool.release(&k, 2, 0));
    assert!(!pool.release(&k, 3, 0));
    assert_eq!(pool.idle_count(&k), 2);
    // After 150 ms both idle connections have outlived the timeout: a
    // checkout finds nothing — the caller must establish a fresh
    // connection — and both are evicted.
    assert_eq!(pool.checkout(&k, 150), None);
    assert_eq!(pool.idle_count(&k), 0);
}

#[test]
fn connection_at_timeout_boundary_is_still_fresh() {
    let mut pool = Pool::new(2, 100);
    let k = key("example.com", 443);
    assert!(pool.release(&k, 1, 0));
    // Idle for exactly the timeout: not yet longer than it.
    assert_eq!(pool.checkout(&k, 100), Some(1));
}

#[test]
fn eviction_touches_only_the_checked_out_key() {
    let mut pool = Pool::new(2, 100);
    let a = key("a.example", 443);
    let b = key("b.example", 443);
    assert!(pool.release(&a, 1, 0));
    assert!(pool.release(&b, 2, 0));
    assert_eq!(pool.checkout(&a, 150), None);
    // The other key's expired slot is untouched until its own checkout.
    assert_eq!(pool.idle_count(&b), 1);
}

#[test]
fn connect_path_reuses_healthy_idle_connection() {
    let (state, action) = pool_connect_step(
        PoolConnectState::Start,
        PoolConnectEvent::Begin { checkout: Some(7) },
    );
    assert_eq!(action, PoolConnectAction::ProbeIdle);
    let (state, action) = pool_connect_step(state, PoolConnectEvent::IdleHealthy);
    assert_eq!(action, PoolConnectAction::Yield);
    match state {
        PoolConnectState::Delivered { conn, reused } => {
            assert_eq!(conn, 7);
            assert!(reused);
        },
        other => panic!("expected delivered, got {:?}", other),
    }
}

#[test]
fn connect_path_recovers_once_from_dead_idle_connection() {
    let (state, action) = pool_connect_step(
        PoolConnectState::Start,
        PoolConnectEvent::Begin { checkout: Some(7) },
    );
    assert_eq!(action, PoolConnectAction::ProbeIdle);
    // The stale connection is discarded and recovered from silently.
    let (state, action) = pool_connect_step(state, PoolConnectEvent::IdleDead);
    assert_eq!(action, PoolConnectAction::ConnectInner);
    let (state, action) = pool_connect_step(state, PoolConnectEvent::FreshOk { conn: 9 });
    assert_eq!(action, PoolConnectAction::Yield);
    match state {
        PoolConnectState::Delivered { conn, reused } => {
            assert_eq!(conn, 9);
            assert!(!reused);
        },
        other => panic!("expected delivered, got {:?}", other),
    }
}

#[test]
fn connect_path_surfaces_fresh_failure_unchanged() {
    let (state, _) = pool_connect_step(
        PoolConnectState::Start,
        PoolConnectEvent::Begin { checkout: None },
    );
    let error = IoError::new(IoErrorKind::ConnectionRefused, String::from("refused"));
    let (state, action) = pool_connect_step(state, PoolConnectEvent::FreshFailed { error });
    assert_eq!(action, PoolConnectAction::Report);
    match state {
        PoolConnectState::Failed { error } => {
            assert_eq!(error.kind, IoErrorKind::ConnectionRefused);
            assert_eq!(error.detail, "refused");
        },
        other => panic!("expected failed, got {:?}", other),
    }
}
