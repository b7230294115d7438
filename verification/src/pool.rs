//! Idle-connection pool bookkeeping.
//!
//! The pool maps destination keys to idle connections so an
//! established connection can be reused instead of reconnecting.
//! Connections themselves are opaque to this layer: each is tracked
//! by a caller-chosen handle, and a well-formed pool never holds the
//! same handle twice, so no connection can sit in two idle sets or be
//! handed to two callers.  Returning a connection the pool already
//! holds is rejected, and returning one over the per-key capacity
//! drops it instead of blocking.  Idle connections that outlive the
//! configured timeout are evicted lazily when their key is next
//! checked out.

use vstd::prelude::*;

use crate::errors::IoError;
use crate::name::ConnectionKey;

verus! {

/// One idle connection: the destination it belongs to, its handle and
/// when it became idle.
#[derive(Debug)]
pub struct PoolSlot {
    pub key: ConnectionKey,
    pub conn: u64,
    pub idle_since: u64,
}

impl Clone for PoolSlot {
    /// An exact copy of the slot.
    fn clone(&self) -> (r: Self)
        ensures
            r == *self,
    {
        PoolSlot { key: self.key.clone(), conn: self.conn, idle_since: self.idle_since }
    }
}

/// Whether a slot idle since `idle_since` has outlived `timeout_ms`
/// at instant `now` (all in milliseconds).
pub open spec fn spec_expired(s: PoolSlot, timeout_ms: u64, now: u64) -> bool {
    s.idle_since < now && now - s.idle_since > timeout_ms
}

/// The slots left for key `k` once its expired ones are evicted,
/// in order; slots of other keys are untouched.
pub open spec fn survivors_of(slots: Seq<PoolSlot>, k: (Seq<char>, u16), timeout_ms: u64, now: u64) -> Seq<
    PoolSlot,
>
    decreases slots.len(),
{
    if slots.len() == 0 {
        Seq::empty()
    } else {
        let rest = survivors_of(slots.drop_last(), k, timeout_ms, now);
        if !(slots.last().key@ == k && spec_expired(slots.last(), timeout_ms, now)) {
            rest.push(slots.last())
        } else {
            rest
        }
    }
}

/// The slots of key `k`, in order.
pub open spec fn matches_of(slots: Seq<PoolSlot>, k: (Seq<char>, u16)) -> Seq<PoolSlot>
    decreases slots.len(),
{
    if slots.len() == 0 {
        Seq::empty()
    } else {
        let rest = matches_of(slots.drop_last(), k);
        if slots.last().key@ == k {
            rest.push(slots.last())
        } else {
            rest
        }
    }
}

/// The slots of key `k` that have not expired, in order.
pub open spec fn fresh_matches_of(slots: Seq<PoolSlot>, k: (Seq<char>, u16), timeout_ms: u64, now: u64) -> Seq<
    PoolSlot,
>
    decreases slots.len(),
{
    if slots.len() == 0 {
        Seq::empty()
    } else {
        let rest = fresh_matches_of(slots.drop_last(), k, timeout_ms, now);
        if slots.last().key@ == k && !spec_expired(slots.last(), timeout_ms, now) {
            rest.push(slots.last())
        } else {
            rest
        }
    }
}

/// The idle set, shared by every caller; checkout and return are each
/// one atomic critical section on it.
#[derive(Debug)]
pub struct Pool {
    pub slots: Vec<PoolSlot>,
    pub capacity_per_key: usize,
    pub idle_timeout_ms: u64,
}

impl Pool {
    /// Well-formed: no connection handle occurs twice, so a
    /// connection is never in two idle sets nor handed out twice.
    pub open spec fn wf(self) -> bool {
        forall|i: int, j: int|
            0 <= i < j < self.slots@.len() ==> self.slots@[i].conn != self.slots@[j].conn
    }

    /// Whether the pool holds the connection handle `c`.
    pub open spec fn contains_conn(self, c: u64) -> bool {
        exists|i: int| 0 <= i < self.slots@.len() && self.slots@[i].conn == c
    }

    /// An empty pool with the given per-key capacity and idle timeout.
    pub fn new(capacity_per_key: usize, idle_timeout_ms: u64) -> (r: Pool)
        ensures
            r.slots@ == Seq::<PoolSlot>::empty(),
            r.capacity_per_key == capacity_per_key,
            r.idle_timeout_ms == idle_timeout_ms,
            r.wf(),
    {
        Pool { slots: Vec::new(), capacity_per_key, idle_timeout_ms }
    }

    /// How many idle connections the pool holds for `key`.
    pub fn idle_count(&self, key: &ConnectionKey) -> (n: usize)
        ensures
            n == matches_of(self.slots@, key@).len(),
    {
        let mut n: usize = 0;
        let mut i: usize = 0;
        while i < self.slots.len()
            invariant
                i <= self.slots@.len(),
                n <= i,
                n == matches_of(self.slots@.take(i as int), key@).len(),
            decreases self.slots@.len() - i,
        {
            proof {
                assert(self.slots@.take(i + 1).drop_last() =~= self.slots@.take(i as int));
                assert(self.slots@.take(i + 1).last() == self.slots@[i as int]);
            }
            if self.slots[i].key == *key {
                n = n + 1;
            }
            i = i + 1;
        }
        proof {
            assert(self.slots@.take(self.slots@.len() as int) =~= self.slots@);
        }
        n
    }

    /// Whether the idle set holds the connection handle `conn`.
    pub fn holds(&self, conn: u64) -> (r: bool)
        ensures
            r == self.contains_conn(conn),
    {
        let mut i: usize = 0;
        while i < self.slots.len()
            invariant
                i <= self.slots@.len(),
                forall|j: int| 0 <= j < i ==> self.slots@[j].conn != conn,
            decreases self.slots@.len() - i,
        {
            if self.slots[i].conn == conn {
                return true;
            }
            i = i + 1;
        }
        false
    }

    /// Returns a connection to the idle set.
    ///
    /// A connection the pool already holds is rejected, leaving the
    /// pool exactly as it was, so a second return of the same
    /// connection never duplicates it.  A return that would exceed
    /// the per-key capacity drops the connection, also leaving the
    /// pool unchanged.  Otherwise the connection is appended to the
    /// key's idle set, marked idle since `now`, and the call reports
    /// that it was retained.
    pub fn release(&mut self, key: &ConnectionKey, conn: u64, now: u64) -> (r: bool)
        ensures
            old(self).contains_conn(conn) ==> !r && *final(self) == *old(self),
            !old(self).contains_conn(conn) && matches_of(old(self).slots@, key@).len()
                >= old(self).capacity_per_key ==> !r && *final(self) == *old(self),
            !old(self).contains_conn(conn) && matches_of(old(self).slots@, key@).len()
                < old(self).capacity_per_key ==> r && final(self).slots@ == old(self).slots@.push(
                (PoolSlot { key: *key, conn, idle_since: now }),
            ),
            final(self).capacity_per_key == old(self).capacity_per_key,
            final(self).idle_timeout_ms == old(self).idle_timeout_ms,
            old(self).wf() ==> final(self).wf(),
            r ==> final(self).contains_conn(conn),
    {
        let mut i: usize = 0;
        while i < self.slots.len()
            invariant
                i <= self.slots@.len(),
                *self == *old(self),
                forall|j: int| 0 <= j < i ==> self.slots@[j].conn != conn,
            decreases self.slots@.len() - i,
        {
            if self.slots[i].conn == conn {
                return false;
            }
            i = i + 1;
        }
        let count = self.idle_count(key);
        if count >= self.capacity_per_key {
            return false;
        }
        let slot = PoolSlot { key: key.clone(), conn, idle_since: now };
        self.slots.push(slot);
        proof {
            assert(self.slots@.last().conn == conn);
            if old(self).wf() {
                assert forall|a: int, b: int|
                    0 <= a < b < self.slots@.len() implies self.slots@[a].conn
                    != self.slots@[b].conn by {
                    if b < old(self).slots@.len() {
                    } else {
                        assert(self.slots@[b].conn == conn);
                    }
                }
            }
        }
        true
    }

    /// Checks out an idle connection for `key`, evicting that key's
    /// expired connections on the way.
    ///
    /// When a not-yet-expired connection for the key exists, the
    /// first such is removed from the idle set and returned: it is no
    /// longer in the pool, so no other caller can receive it.  When
    /// none exists the call returns nothing — the caller must then
    /// establish a fresh connection — and the key's idle set is left
    /// holding no expired entry.  Other keys' slots are untouched, in
    /// value and in order.
    pub fn checkout(&mut self, key: &ConnectionKey, now: u64) -> (r: Option<u64>)
        requires
            old(self).wf(),
        ensures
            final(self).wf(),
            final(self).capacity_per_key == old(self).capacity_per_key,
            final(self).idle_timeout_ms == old(self).idle_timeout_ms,
            r is None ==> final(self).slots@ == survivors_of(
                old(self).slots@,
                key@,
                old(self).idle_timeout_ms,
                now,
            ) && fresh_matches_of(old(self).slots@, key@, old(self).idle_timeout_ms, now).len()
                == 0,
            r matches Some(c) ==> {
                &&& old(self).contains_conn(c)
                &&& !final(self).contains_conn(c)
                &&& exists|m: int|
                    checkout_removed_at(
                        survivors_of(old(self).slots@, key@, old(self).idle_timeout_ms, now),
                        final(self).slots@,
                        m,
                        key@,
                        old(self).idle_timeout_ms,
                        now,
                        c,
                    )
            },
    {
        let timeout = self.idle_timeout_ms;
        let ghost k = key@;
        let ghost orig = self.slots@;
        let mut kept: Vec<PoolSlot> = Vec::new();
        let mut i: usize = 0;
        while i < self.slots.len()
            invariant
                i <= self.slots@.len(),
                *self == *old(self),
                timeout == self.idle_timeout_ms,
                k == key@,
                orig == self.slots@,
                kept@ == survivors_of(orig.take(i as int), k, timeout, now),
            decreases self.slots@.len() - i,
        {
            let slot_matches = self.slots[i].key == *key;
            let expired = self.slots[i].idle_since < now && now - self.slots[i].idle_since
                > timeout;
            proof {
                assert(slot_matches == (orig[i as int].key@ == k));
                assert(expired == spec_expired(orig[i as int], timeout, now));
                assert(orig.take(i + 1).drop_last() =~= orig.take(i as int));
                assert(orig.take(i + 1).last() == orig[i as int]);
                assert(orig.take(i + 1).len() == i + 1);
            }
            if !(slot_matches && expired) {
                let copy = self.slots[i].clone();
                kept.push(copy);
                proof {
                    assert(kept@ == survivors_of(orig.take(i as int), k, timeout, now).push(
                        orig[i as int]));
                    assert(survivors_of(orig.take(i + 1), k, timeout, now) == survivors_of(
                        orig.take(i as int),
                        k,
                        timeout,
                        now,
                    ).push(orig[i as int]));
                }
            } else {
                proof {
                    assert(survivors_of(orig.take(i + 1), k, timeout, now) == survivors_of(
                        orig.take(i as int),
                        k,
                        timeout,
                        now,
                    ));
                }
            }
            i = i + 1;
        }
        proof {
            assert(orig.take(orig.len() as int) =~= orig);
            lemma_survivors_sound(orig, k, timeout, now);
        }
        let mut m: usize = 0;
        let mut idx: usize = 0;
        let mut found: bool = false;
        while m < kept.len()
            invariant
                m <= kept@.len(),
                k == key@,
                found ==> idx < kept@.len() && kept@[idx as int].key@ == k && !spec_expired(
                    kept@[idx as int],
                    timeout,
                    now,
                ),
                found ==> forall|j: int|
                    0 <= j < idx ==> !(kept@[j].key@ == k && !spec_expired(kept@[j], timeout, now)),
                !found ==> forall|j: int|
                    0 <= j < m ==> !(kept@[j].key@ == k && !spec_expired(kept@[j], timeout, now)),
            decreases kept@.len() - m,
        {
            if !found {
                let expired = kept[m].idle_since < now && now - kept[m].idle_since > timeout;
                if kept[m].key == *key && !expired {
                    idx = m;
                    found = true;
                }
            }
            m = m + 1;
        }
        if found {
            let c = kept[idx].conn;
            proof {
                lemma_survivors_sound(orig, k, timeout, now);
                let mid = survivors_of(orig, k, timeout, now);
                assert(kept@ == mid);
                assert(mid.contains(mid[idx as int]));
                assert(orig.contains(mid[idx as int]));
                let w = choose|w: int| 0 <= w < orig.len() && orig[w] == mid[idx as int];
                assert(orig[w].conn == c);
                lemma_remove_keeps_distinct(mid, idx as int);
                lemma_removed_conn_gone(mid, idx as int);
            }
            kept.remove(idx);
            self.slots = kept;
            proof {
                let mid = survivors_of(orig, k, timeout, now);
                assert(checkout_removed_at(mid, self.slots@, idx as int, k, timeout, now, c));
                assert(exists|m2: int|
                    checkout_removed_at(mid, self.slots@, m2, k, timeout, now, c));
            }
            Some(c)
        } else {
            proof {
                let mid = survivors_of(orig, k, timeout, now);
                lemma_no_fresh_in_clean(mid, k, timeout, now);
                lemma_fresh_of_survivors(orig, k, timeout, now);
            }
            self.slots = kept;
            None
        }
    }
}

/// Where one connect attempt of the pooling layer stands.
#[derive(Debug)]
pub enum PoolConnectState {
    /// Nothing has happened yet.
    Start,
    /// An idle connection was checked out and its health is probed.
    ProbingIdle { conn: u64 },
    /// The inner connector is establishing a fresh connection.
    AwaitingFresh,
    /// Terminal: a connection was delivered, reused or fresh.
    Delivered { conn: u64, reused: bool },
    /// Terminal: the inner connector's failure, surfaced unchanged.
    Failed { error: IoError },
}

/// What the runtime reports back to the pooling step function.
#[derive(Debug)]
pub enum PoolConnectEvent {
    /// The caller asked for a connection; `checkout` is what the idle
    /// set yielded for the key.
    Begin { checkout: Option<u64> },
    /// The checked-out connection is still healthy.
    IdleHealthy,
    /// The checked-out connection proved dead.
    IdleDead,
    /// The inner connector produced a fresh connection.
    FreshOk { conn: u64 },
    /// The inner connector failed.
    FreshFailed { error: IoError },
}

/// What the runtime must do next for the pooling layer.
#[derive(Clone, Copy, PartialEq, Eq, Structural, Debug)]
pub enum PoolConnectAction {
    /// Probe the checked-out connection's health.
    ProbeIdle,
    /// Discard any dead checked-out connection and ask the inner
    /// connector for a fresh one.
    ConnectInner,
    /// Hand the connection to the caller.
    Yield,
    /// Surface the failure.
    Report,
}

/// The events each state of a pooling connect attempt accepts; the
/// terminal states accept none.
pub open spec fn pool_step_allowed(state: PoolConnectState, event: PoolConnectEvent) -> bool {
    match (state, event) {
        (PoolConnectState::Start, PoolConnectEvent::Begin { .. }) => true,
        (PoolConnectState::ProbingIdle { .. }, PoolConnectEvent::IdleHealthy) => true,
        (PoolConnectState::ProbingIdle { .. }, PoolConnectEvent::IdleDead) => true,
        (PoolConnectState::AwaitingFresh, PoolConnectEvent::FreshOk { .. }) => true,
        (PoolConnectState::AwaitingFresh, PoolConnectEvent::FreshFailed { .. }) => true,
        _ => false,
    }
}

/// One step of the pooling layer's connect path.
///
/// A checked-out idle connection is probed and, when healthy, reused
/// as it stands.  A stale one is discarded — never returned to the
/// pool — and recovered from silently by one fresh attempt through
/// the inner connector; that attempt's failure is surfaced unchanged,
/// with no further retry.
pub fn pool_connect_step(state: PoolConnectState, event: PoolConnectEvent) -> (r: (
    PoolConnectState,
    PoolConnectAction,
))
    requires
        pool_step_allowed(state, event),
    ensures
        event matches PoolConnectEvent::Begin { checkout } ==> {
            &&& checkout matches Some(c) ==> r == ((
                PoolConnectState::ProbingIdle { conn: c },
                PoolConnectAction::ProbeIdle,
            ))
            &&& checkout is None ==> r == ((
                PoolConnectState::AwaitingFresh,
                PoolConnectAction::ConnectInner,
            ))
        },
        state matches PoolConnectState::ProbingIdle { conn } ==> {
            &&& event is IdleHealthy ==> r == ((
                PoolConnectState::Delivered { conn, reused: true },
                PoolConnectAction::Yield,
            ))
            &&& event is IdleDead ==> r == ((
                PoolConnectState::AwaitingFresh,
                PoolConnectAction::ConnectInner,
            ))
        },
        event matches PoolConnectEvent::FreshOk { conn } ==> r == ((
            PoolConnectState::Delivered { conn, reused: false },
            PoolConnectAction::Yield,
        )),
        event matches PoolConnectEvent::FreshFailed { error } ==> r == ((
            PoolConnectState::Failed { error },
            PoolConnectAction::Report,
        )),
{
    match (state, event) {
        (PoolConnectState::Start, PoolConnectEvent::Begin { checkout: Some(conn) }) => (
            PoolConnectState::ProbingIdle { conn },
            PoolConnectAction::ProbeIdle,
        ),
        (PoolConnectState::Start, PoolConnectEvent::Begin { checkout: None }) => (
            PoolConnectState::AwaitingFresh,
            PoolConnectAction::ConnectInner,
        ),
        (PoolConnectState::ProbingIdle { conn }, PoolConnectEvent::IdleHealthy) => (
            PoolConnectState::Delivered { conn, reused: true },
            PoolConnectAction::Yield,
        ),
        (PoolConnectState::ProbingIdle { .. }, PoolConnectEvent::IdleDead) => (
            PoolConnectState::AwaitingFresh,
            PoolConnectAction::ConnectInner,
        ),
        (PoolConnectState::AwaitingFresh, PoolConnectEvent::FreshOk { conn }) => (
            PoolConnectState::Delivered { conn, reused: false },
            PoolConnectAction::Yield,
        ),
        (PoolConnectState::AwaitingFresh, PoolConnectEvent::FreshFailed { error }) => (
            PoolConnectState::Failed { error },
            PoolConnectAction::Report,
        ),
        _ => (PoolConnectState::Start, PoolConnectAction::Report),
    }
}


/// No two callers ever receive the same connection: a checkout hands
/// out a handle the pool no longer holds (`checkout` ensures it), and
/// any later checkout hands out a handle the pool did hold then, so
/// the two handles differ.
pub proof fn lemma_checkout_yields_distinct(after_first: Pool, c1: u64, c2: u64)
    requires
        !after_first.contains_conn(c1),
        after_first.contains_conn(c2),
    ensures
        c1 != c2,
{
}

/// The checkout removed exactly the slot at `m` of the evicted idle
/// set `mid`: it is the first not-yet-expired slot of key `k` there,
/// it carried handle `c`, and everything else survives in order.
pub open spec fn checkout_removed_at(
    mid: Seq<PoolSlot>,
    fin: Seq<PoolSlot>,
    m: int,
    k: (Seq<char>, u16),
    timeout_ms: u64,
    now: u64,
    c: u64,
) -> bool {
    &&& 0 <= m < mid.len()
    &&& mid[m].key@ == k
    &&& !spec_expired(mid[m], timeout_ms, now)
    &&& mid[m].conn == c
    &&& forall|j: int|
        0 <= j < m ==> !(mid[j].key@ == k && !spec_expired(mid[j], timeout_ms, now))
    &&& fin == mid.remove(m)
}

/// Eviction only drops slots: every survivor stands in the original
/// sequence, and distinct handles stay distinct.
proof fn lemma_survivors_sound(slots: Seq<PoolSlot>, k: (Seq<char>, u16), timeout_ms: u64, now: u64)
    requires
        forall|i: int, j: int| 0 <= i < j < slots.len() ==> slots[i].conn != slots[j].conn,
    ensures
        forall|x: PoolSlot|
            #[trigger] survivors_of(slots, k, timeout_ms, now).contains(x) ==> slots.contains(x),
        forall|i: int, j: int|
            0 <= i < j < survivors_of(slots, k, timeout_ms, now).len() ==> survivors_of(
                slots,
                k,
                timeout_ms,
                now,
            )[i].conn != survivors_of(slots, k, timeout_ms, now)[j].conn,
    decreases slots.len(),
{
    if slots.len() > 0 {
        let prefix = slots.drop_last();
        assert(forall|i: int, j: int|
            0 <= i < j < prefix.len() ==> prefix[i].conn != prefix[j].conn) by {
            assert(forall|i: int| 0 <= i < prefix.len() ==> prefix[i] == slots[i]);
        }
        lemma_survivors_sound(prefix, k, timeout_ms, now);
        let sub = survivors_of(prefix, k, timeout_ms, now);
        let whole = survivors_of(slots, k, timeout_ms, now);
        assert forall|x: PoolSlot| #[trigger] whole.contains(x) implies slots.contains(x) by {
            if sub.contains(x) {
                assert(prefix.contains(x));
                let w = choose|w: int| 0 <= w < prefix.len() && prefix[w] == x;
                assert(slots[w] == x);
            } else {
                assert(x == slots.last());
                assert(slots[slots.len() - 1] == x);
            }
        }
        if !(slots.last().key@ == k && spec_expired(slots.last(), timeout_ms, now)) {
            assert forall|i: int, j: int| 0 <= i < j < whole.len() implies whole[i].conn
                != whole[j].conn by {
                if j < whole.len() - 1 {
                } else {
                    assert(whole[j] == slots.last());
                    assert(sub.contains(whole[i]));
                    assert(prefix.contains(whole[i]));
                    let w = choose|w: int| 0 <= w < prefix.len() && prefix[w] == whole[i];
                    assert(slots[w].conn == whole[i].conn);
                    assert(slots[slots.len() - 1].conn == slots.last().conn);
                }
            }
        }
    }
}

/// Eviction for a key keeps exactly that key's fresh slots.
proof fn lemma_fresh_of_survivors(
    slots: Seq<PoolSlot>,
    k: (Seq<char>, u16),
    timeout_ms: u64,
    now: u64,
)
    ensures
        fresh_matches_of(survivors_of(slots, k, timeout_ms, now), k, timeout_ms, now)
            == fresh_matches_of(slots, k, timeout_ms, now),
    decreases slots.len(),
{
    if slots.len() > 0 {
        let prefix = slots.drop_last();
        lemma_fresh_of_survivors(prefix, k, timeout_ms, now);
        let sub = survivors_of(prefix, k, timeout_ms, now);
        if !(slots.last().key@ == k && spec_expired(slots.last(), timeout_ms, now)) {
            assert(survivors_of(slots, k, timeout_ms, now) == sub.push(slots.last()));
            assert(sub.push(slots.last()).drop_last() =~= sub);
            assert(sub.push(slots.last()).last() == slots.last());
        } else {
            assert(survivors_of(slots, k, timeout_ms, now) == sub);
        }
    }
}

/// A sequence none of whose slots is a fresh match for `k` has no
/// fresh matches at all.
proof fn lemma_no_fresh_in_clean(slots: Seq<PoolSlot>, k: (Seq<char>, u16), timeout_ms: u64, now: u64)
    requires
        forall|j: int|
            0 <= j < slots.len() ==> !(slots[j].key@ == k && !spec_expired(
                slots[j],
                timeout_ms,
                now,
            )),
    ensures
        fresh_matches_of(slots, k, timeout_ms, now).len() == 0,
    decreases slots.len(),
{
    if slots.len() > 0 {
        let prefix = slots.drop_last();
        assert(forall|j: int| 0 <= j < prefix.len() ==> prefix[j] == slots[j]);
        lemma_no_fresh_in_clean(prefix, k, timeout_ms, now);
        assert(slots.last() == slots[slots.len() - 1]);
    }
}

/// Removing one slot of a duplicate-free sequence keeps it
/// duplicate-free.
proof fn lemma_remove_keeps_distinct(s: Seq<PoolSlot>, m: int)
    requires
        0 <= m < s.len(),
        forall|i: int, j: int| 0 <= i < j < s.len() ==> s[i].conn != s[j].conn,
    ensures
        forall|i: int, j: int|
            0 <= i < j < s.remove(m).len() ==> s.remove(m)[i].conn != s.remove(m)[j].conn,
{
    assert forall|i: int, j: int| 0 <= i < j < s.remove(m).len() implies s.remove(m)[i].conn
        != s.remove(m)[j].conn by {
        let oi: int = if i < m {
            i
        } else {
            i + 1
        };
        let oj: int = if j < m {
            j
        } else {
            j + 1
        };
        assert(s.remove(m)[i] == s[oi]);
        assert(s.remove(m)[j] == s[oj]);
    }
}

/// Removing the only slot with a handle removes the handle: a
/// checked-out connection is no longer anywhere in the idle set.
proof fn lemma_removed_conn_gone(s: Seq<PoolSlot>, m: int)
    requires
        0 <= m < s.len(),
        forall|i: int, j: int| 0 <= i < j < s.len() ==> s[i].conn != s[j].conn,
    ensures
        forall|i: int| 0 <= i < s.remove(m).len() ==> s.remove(m)[i].conn != s[m].conn,
{
    assert forall|i: int| 0 <= i < s.remove(m).len() implies s.remove(m)[i].conn != s[m].conn by {
        let oi: int = if i < m {
            i
        } else {
            i + 1
        };
        assert(s.remove(m)[i] == s[oi]);
    }
}

} // verus!
