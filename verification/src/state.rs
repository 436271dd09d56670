//! The broadcast registry: who is connected, and how to reach them.

use vstd::prelude::*;
use crate::addr::{key_peer, key_valid, PeerAddr, PeerKey};
use crate::buffer::bytes_share;
use crate::queue::{offer, SendOutcome};

verus! {

/// `dashmap::DashMap`: a concurrent hash map, known here by its keys only.
#[verifier::external_type_specification]
#[verifier::external_body]
#[verifier::reject_recursive_types(K)]
#[verifier::reject_recursive_types(V)]
#[verifier::reject_recursive_types(S)]
pub struct ExDashMap<K, V, S>(dashmap::DashMap<K, V, S>);

/// The keys under which a connection table holds an entry.
pub uninterp spec fn map_keys(
    m: dashmap::DashMap<
        (bool, u128, u16, u32, u32),
        crossbeam_channel::Sender<bytes::Bytes>,
        std::hash::RandomState,
    >,
) -> Set<(bool, u128, u16, u32, u32)>;

/// `dashmap::DashMap::new`: a table without entries.
#[verifier::external_body]
fn map_new() -> (m: dashmap::DashMap<PeerKey, crossbeam_channel::Sender<bytes::Bytes>>)
    ensures
        map_keys(m) == Set::<PeerKey>::empty(),
{
    dashmap::DashMap::new()
}

/// `dashmap::DashMap::insert`: afterwards `k` has an entry, and the other keys
/// are as before. The call is taken not to unwind.
#[verifier::external_body]
fn map_insert(
    m: &mut dashmap::DashMap<PeerKey, crossbeam_channel::Sender<bytes::Bytes>>,
    k: PeerKey,
    tx: crossbeam_channel::Sender<bytes::Bytes>,
)
    ensures
        map_keys(*final(m)) == map_keys(*old(m)).insert(k),
    no_unwind
{
    m.insert(k, tx);
}

/// `dashmap::DashMap::remove`: afterwards `k` has no entry, and the other keys
/// are as before. The call is taken not to unwind.
#[verifier::external_body]
fn map_remove(m: &mut dashmap::DashMap<PeerKey, crossbeam_channel::Sender<bytes::Bytes>>, k: &PeerKey)
    ensures
        map_keys(*final(m)) == map_keys(*old(m)).remove(*k),
    no_unwind
{
    m.remove(k);
}

/// `dashmap::DashMap::clear`: afterwards the table has no entries. The call is
/// taken not to unwind.
#[verifier::external_body]
fn map_clear(m: &mut dashmap::DashMap<PeerKey, crossbeam_channel::Sender<bytes::Bytes>>)
    ensures
        map_keys(*final(m)) == Set::<PeerKey>::empty(),
    no_unwind
{
    m.clear();
}

/// `dashmap::DashMap::contains_key`: whether `k` has an entry.
#[verifier::external_body]
fn map_contains(m: &dashmap::DashMap<PeerKey, crossbeam_channel::Sender<bytes::Bytes>>, k: &PeerKey) -> (b:
    bool)
    ensures
        b == map_keys(*m).contains(*k),
{
    m.contains_key(k)
}

/// `dashmap::DashMap::iter`: every entry once, in no particular order, as a
/// copy of its key and a clone of its sender.
#[verifier::external_body]
fn map_snapshot(m: &dashmap::DashMap<PeerKey, crossbeam_channel::Sender<bytes::Bytes>>) -> (v: Vec<
    (PeerKey, crossbeam_channel::Sender<bytes::Bytes>),
>)
    ensures
        forall|i: int, j: int| 0 <= i < j < v@.len() ==> v@[i].0 != v@[j].0,
        forall|i: int| 0 <= i < v@.len() ==> map_keys(*m).contains(#[trigger] v@[i].0),
        forall|k: PeerKey|
            map_keys(*m).contains(k) ==> exists|i: int| 0 <= i < v@.len() && #[trigger] v@[i].0 == k,
{
    m.iter().map(|e| (*e.key(), e.value().clone())).collect()
}

/// `dashmap::DashMap::len`: the number of entries.
#[verifier::external_body]
fn map_len(m: &dashmap::DashMap<PeerKey, crossbeam_channel::Sender<bytes::Bytes>>) -> (n: usize)
    ensures
        n == map_keys(*m).len(),
{
    m.len()
}

/// What one broadcast did for one registered peer.
#[derive(Clone, Copy, Debug, PartialEq, Eq, Structural)]
pub struct Delivery {
    /// The peer the buffer was offered to.
    pub peer: PeerAddr,
    /// What became of the offer.
    pub outcome: SendOutcome,
}

/// Whether a peer with this outcome is dropped from the registry: a peer whose
/// queue is full or whose receiver is gone does not stay.
pub open spec fn evicts(outcome: SendOutcome) -> bool {
    outcome != SendOutcome::Delivered
}

/// The peers that a report names.
pub open spec fn report_peers(report: Seq<Delivery>) -> Set<PeerAddr> {
    Set::new(|a: PeerAddr| exists|i: int| 0 <= i < report.len() && (#[trigger] report[i]).peer == a)
}

/// The peers that a report evicts.
pub open spec fn report_evicted(report: Seq<Delivery>) -> Set<PeerAddr> {
    Set::new(
        |a: PeerAddr|
            exists|i: int|
                0 <= i < report.len() && (#[trigger] report[i]).peer == a && evicts(report[i].outcome),
    )
}

/// No peer is named twice.
pub open spec fn report_distinct(report: Seq<Delivery>) -> bool {
    forall|i: int, j: int|
        0 <= i < j < report.len() ==> (#[trigger] report[i]).peer != (#[trigger] report[j]).peer
}

/// The registry after `addr` is inserted.
pub open spec fn after_insert(peers: Set<PeerAddr>, addr: PeerAddr) -> Set<PeerAddr> {
    peers.insert(addr)
}

/// The registry after `addr` is removed.
pub open spec fn after_remove(peers: Set<PeerAddr>, addr: PeerAddr) -> Set<PeerAddr> {
    peers.remove(addr)
}

/// The registry after it is disposed of.
pub open spec fn after_dispose(peers: Set<PeerAddr>) -> Set<PeerAddr> {
    Set::empty()
}

/// The registry after a broadcast that ended with `report`.
pub open spec fn after_broadcast(peers: Set<PeerAddr>, report: Seq<Delivery>) -> Set<PeerAddr> {
    peers.difference(report_evicted(report))
}

/// Says whether a peer with this outcome must leave the registry.
pub fn must_evict(outcome: SendOutcome) -> (b: bool)
    ensures
        b == evicts(outcome),
        b <==> (outcome == SendOutcome::Full || outcome == SendOutcome::Disconnected),
{
    match outcome {
        SendOutcome::Delivered => false,
        SendOutcome::Full => true,
        SendOutcome::Disconnected => true,
    }
}

/// The connected TCP clients, each with the sending end of its outbound queue.
///
/// Whatever changes the registry takes it exclusively: that is what lets a
/// contract say who is registered afterwards. Threads that share a registry
/// put it behind a lock of their choosing. The offers of a broadcast never
/// block, so the lock is held briefly.
pub struct SharedState {
    tcp_connections: dashmap::DashMap<PeerKey, crossbeam_channel::Sender<bytes::Bytes>>,
}

impl SharedState {
    #[verifier::type_invariant]
    spec fn well_formed(self) -> bool {
        &&& map_keys(self.tcp_connections).finite()
        &&& forall|k: PeerKey| #[trigger] map_keys(self.tcp_connections).contains(k) ==> key_valid(k)
    }

    /// The addresses that are registered.
    pub closed spec fn peers(&self) -> Set<PeerAddr> {
        Set::new(|a: PeerAddr| map_keys(self.tcp_connections).contains(a.key_spec()))
    }

    /// A registry without connections.
    pub fn new() -> (s: Self)
        ensures
            s.peers() == Set::<PeerAddr>::empty(),
    {
        let s = SharedState { tcp_connections: map_new() };
        assert(s.peers() =~= Set::<PeerAddr>::empty());
        s
    }

    /// Registers `addr` with the sending end `tx` of its outbound queue. An
    /// entry already held for `addr` is replaced.
    pub fn insert(&mut self, addr: PeerAddr, tx: crossbeam_channel::Sender<bytes::Bytes>)
        ensures
            final(self).peers() == after_insert(old(self).peers(), addr),
    {
        proof {
            use_type_invariant(&*self);
        }
        let k = addr.key();
        map_insert(&mut self.tcp_connections, k, tx);
        assert(self.peers() =~= after_insert(old(self).peers(), addr));
    }

    /// Drops the entry of `addr`, if there is one.
    pub fn remove(&mut self, addr: &PeerAddr)
        ensures
            final(self).peers() == after_remove(old(self).peers(), *addr),
    {
        proof {
            use_type_invariant(&*self);
        }
        let k = addr.key();
        map_remove(&mut self.tcp_connections, &k);
        assert(self.peers() =~= after_remove(old(self).peers(), *addr));
    }

    /// Drops every entry.
    pub fn dispose(&mut self)
        ensures
            final(self).peers() == after_dispose(old(self).peers()),
    {
        map_clear(&mut self.tcp_connections);
        assert(self.peers() =~= Set::<PeerAddr>::empty());
    }

    /// The number of registered peers.
    pub fn len(&self) -> (n: usize)
        ensures
            self.peers().finite(),
            n == self.peers().len(),
    {
        proof {
            use_type_invariant(self);
            let keys = map_keys(self.tcp_connections);
            assert(self.peers() =~= keys.map(|k: PeerKey| key_peer(k))) by {
                assert forall|a: PeerAddr| self.peers().contains(a) implies keys.map(
                    |k: PeerKey| key_peer(k),
                ).contains(a) by {
                    crate::addr::key_is_faithful(a, a);
                    assert(keys.contains(a.key_spec()) && key_peer(a.key_spec()) == a);
                }
                assert forall|a: PeerAddr| keys.map(|k: PeerKey| key_peer(k)).contains(
                    a,
                ) implies self.peers().contains(a) by {
                    let k = choose|k: PeerKey| keys.contains(k) && key_peer(k) == a;
                    crate::addr::valid_key_round_trips(k);
                }
            }
            assert(vstd::relations::injective_on(|k: PeerKey| key_peer(k), keys)) by {
                assert forall|x: PeerKey, y: PeerKey|
                    keys.contains(x) && keys.contains(y) && key_peer(x) == key_peer(y) implies x
                    == y by {
                    crate::addr::valid_key_round_trips(x);
                    crate::addr::valid_key_round_trips(y);
                }
            }
        }
        let n = map_len(&self.tcp_connections);
        proof {
            vstd::set_lib::lemma_map_size(
                map_keys(self.tcp_connections),
                self.peers(),
                |k: PeerKey| key_peer(k),
            );
        }
        n
    }

    /// Whether no peer is registered.
    pub fn is_empty(&self) -> (b: bool)
        ensures
            b == (self.peers() == Set::<PeerAddr>::empty()),
    {
        let n = self.len();
        proof {
            if n == 0 {
                assert(self.peers() =~= Set::<PeerAddr>::empty());
            }
        }
        n == 0
    }

    /// The registered addresses, each once, in no particular order.
    pub fn addresses(&self) -> (list: Vec<PeerAddr>)
        ensures
            forall|i: int, j: int| 0 <= i < j < list@.len() ==> list@[i] != list@[j],
            forall|a: PeerAddr| self.peers().contains(a) <==> list@.contains(a),
    {
        proof {
            use_type_invariant(self);
        }
        let snapshot = map_snapshot(&self.tcp_connections);
        let mut list: Vec<PeerAddr> = Vec::new();
        let mut i: usize = 0;
        while i < snapshot.len()
            invariant
                i <= snapshot@.len(),
                list@.len() == i,
                forall|n: int| 0 <= n < snapshot@.len() ==> key_valid(#[trigger] snapshot@[n].0),
                forall|n: int| 0 <= n < i ==> #[trigger] list@[n] == key_peer(snapshot@[n].0),
            decreases snapshot@.len() - i,
        {
            list.push(PeerAddr::from_key(snapshot[i].0));
            i += 1;
        }
        proof {
            assert forall|a: int, b: int| 0 <= a < b < list@.len() implies list@[a] != list@[b] by {
                crate::addr::valid_key_round_trips(snapshot@[a].0);
                crate::addr::valid_key_round_trips(snapshot@[b].0);
            }
            assert forall|a: PeerAddr| self.peers().contains(a) implies list@.contains(a) by {
                let k = a.key_spec();
                let n = choose|n: int| 0 <= n < snapshot@.len() && #[trigger] snapshot@[n].0 == k;
                assert(list@[n] == a);
            }
            assert forall|a: PeerAddr| list@.contains(a) implies self.peers().contains(a) by {
                let n = choose|n: int| 0 <= n < list@.len() && list@[n] == a;
                crate::addr::valid_key_round_trips(snapshot@[n].0);
            }
        }
        list
    }

    /// Offers `data` to every registered peer without blocking, then drops
    /// each peer whose queue was full or whose receiver was gone. The report
    /// names every peer that was registered at the call exactly once, with what
    /// became of its offer; the peers that stay are those it reports as
    /// delivered.
    pub fn broadcast(&mut self, data: bytes::Bytes) -> (report: Vec<Delivery>)
        ensures
            report_distinct(report@),
            report_peers(report@) == old(self).peers(),
            final(self).peers() == after_broadcast(old(self).peers(), report@),
    {
        proof {
            use_type_invariant(&*self);
        }
        let snapshot = map_snapshot(&self.tcp_connections);
        let mut report: Vec<Delivery> = Vec::new();
        let mut i: usize = 0;
        while i < snapshot.len()
            invariant
                i <= snapshot@.len(),
                report@.len() == i,
                forall|n: int| 0 <= n < snapshot@.len() ==> key_valid(#[trigger] snapshot@[n].0),
                forall|n: int| 0 <= n < i ==> (#[trigger] report@[n]).peer == key_peer(snapshot@[n].0),
            decreases snapshot@.len() - i,
        {
            let entry = &snapshot[i];
            let outcome = offer(&entry.1, bytes_share(&data));
            report.push(Delivery { peer: PeerAddr::from_key(entry.0), outcome });
            i += 1;
        }
        proof {
            assert(report_distinct(report@)) by {
                assert forall|a: int, b: int| 0 <= a < b < report@.len() implies (
                #[trigger] report@[a]).peer != (#[trigger] report@[b]).peer by {
                    crate::addr::valid_key_round_trips(snapshot@[a].0);
                    crate::addr::valid_key_round_trips(snapshot@[b].0);
                }
            }
            assert(report_peers(report@) =~= old(self).peers()) by {
                assert forall|a: PeerAddr| old(self).peers().contains(a) implies report_peers(
                    report@,
                ).contains(a) by {
                    let k = a.key_spec();
                    let n = choose|n: int| 0 <= n < snapshot@.len() && #[trigger] snapshot@[n].0 == k;
                    assert(report@[n].peer == a);
                }
                assert forall|a: PeerAddr| report_peers(report@).contains(a) implies old(
                    self,
                ).peers().contains(a) by {
                    let n = choose|n: int| 0 <= n < report@.len() && (#[trigger] report@[n]).peer == a;
                    crate::addr::valid_key_round_trips(snapshot@[n].0);
                }
            }
        }
        let mut j: usize = 0;
        while j < report.len()
            invariant
                j <= report@.len(),
                self.peers() == old(self).peers().difference(report_evicted(report@.take(j as int))),
            decreases report@.len() - j,
        {
            let d = report[j];
            if must_evict(d.outcome) {
                self.remove(&d.peer);
            }
            proof {
                let before = report@.take(j as int);
                let after = report@.take(j + 1);
                assert(after[j as int] == d);
                assert forall|a: PeerAddr|
                    report_evicted(after).contains(a) <==> (report_evicted(before).contains(a) || (a
                        == d.peer && evicts(d.outcome))) by {
                    if report_evicted(before).contains(a) {
                        let n = choose|n: int|
                            0 <= n < before.len() && (#[trigger] before[n]).peer == a && evicts(
                                before[n].outcome,
                            );
                        assert(after[n] == before[n]);
                    }
                    if report_evicted(after).contains(a) {
                        let n = choose|n: int|
                            0 <= n < after.len() && (#[trigger] after[n]).peer == a && evicts(
                                after[n].outcome,
                            );
                        if n < j {
                            assert(before[n] == after[n]);
                        }
                    }
                }
                assert(self.peers() =~= old(self).peers().difference(report_evicted(after)));
            }
            j += 1;
        }
        proof {
            assert(report@.take(report@.len() as int) =~= report@);
        }
        report
    }

    /// Whether `addr` is registered.
    pub fn contains(&self, addr: &PeerAddr) -> (b: bool)
        ensures
            b == self.peers().contains(*addr),
    {
        let k = addr.key();
        map_contains(&self.tcp_connections, &k)
    }
}

/// Registering an address that was not registered and then removing it leaves
/// the registry as it was.
pub proof fn insert_then_remove_restores(peers: Set<PeerAddr>, addr: PeerAddr)
    requires
        !peers.contains(addr),
    ensures
        after_remove(after_insert(peers, addr), addr) == peers,
{
    assert(peers.insert(addr).remove(addr) =~= peers);
}

/// Removing an address that is not registered changes nothing.
pub proof fn remove_absent_is_noop(peers: Set<PeerAddr>, addr: PeerAddr)
    requires
        !peers.contains(addr),
    ensures
        after_remove(peers, addr) == peers,
{
    assert(peers.remove(addr) =~= peers);
}

/// Removing an address twice is the same as removing it once.
pub proof fn remove_is_idempotent(peers: Set<PeerAddr>, addr: PeerAddr)
    ensures
        after_remove(after_remove(peers, addr), addr) == after_remove(peers, addr),
{
    assert(peers.remove(addr).remove(addr) =~= peers.remove(addr));
}

/// Disposing leaves an empty registry, the first time and every time after.
pub proof fn dispose_is_idempotent(peers: Set<PeerAddr>)
    ensures
        after_dispose(peers) == Set::<PeerAddr>::empty(),
        after_dispose(after_dispose(peers)) == Set::<PeerAddr>::empty(),
{
}

/// In a broadcast, every peer that was registered has exactly one entry in the
/// report, and it either got the buffer and stays registered, or did not and
/// is gone; no peer appears that was not registered before.
pub proof fn broadcast_delivers_or_evicts(peers: Set<PeerAddr>, report: Seq<Delivery>, addr: PeerAddr)
    requires
        report_distinct(report),
        report_peers(report) == peers,
        peers.contains(addr),
    ensures
        exists|i: int|
            0 <= i < report.len() && (#[trigger] report[i]).peer == addr && (report[i].outcome
                == SendOutcome::Delivered <==> after_broadcast(peers, report).contains(addr)),
        forall|i: int, j: int|
            0 <= i < report.len() && 0 <= j < report.len() && (#[trigger] report[i]).peer == addr && (
            #[trigger] report[j]).peer == addr ==> i == j,
        after_broadcast(peers, report).subset_of(peers),
{
    let i = choose|i: int| 0 <= i < report.len() && (#[trigger] report[i]).peer == addr;
    if report_evicted(report).contains(addr) {
        let n = choose|n: int|
            0 <= n < report.len() && (#[trigger] report[n]).peer == addr && evicts(report[n].outcome);
        assert(n == i) by {
            if n < i {
                assert(report[n].peer != report[i].peer);
            }
            if i < n {
                assert(report[i].peer != report[n].peer);
            }
        }
    }
    assert forall|a: int, b: int|
        0 <= a < report.len() && 0 <= b < report.len() && (#[trigger] report[a]).peer == addr && (
        #[trigger] report[b]).peer == addr implies a == b by {
        if a < b {
            assert(report[a].peer != report[b].peer);
        }
        if b < a {
            assert(report[b].peer != report[a].peer);
        }
    }
}

/// A peer whose queue was full, or whose receiver was gone, is evicted by that
/// very broadcast, and this touches no other peer: whoever was registered and
/// is reported as delivered stays.
pub proof fn failed_offer_evicts_only_that_peer(
    peers: Set<PeerAddr>,
    report: Seq<Delivery>,
    i: int,
    j: int,
)
    requires
        report_distinct(report),
        report_peers(report) == peers,
        0 <= i < report.len(),
        0 <= j < report.len(),
        report[i].outcome != SendOutcome::Delivered,
        report[j].outcome == SendOutcome::Delivered,
    ensures
        !after_broadcast(peers, report).contains(report[i].peer),
        after_broadcast(peers, report).contains(report[j].peer),
{
    assert(report_evicted(report).contains(report[i].peer));
    assert(report_peers(report).contains(report[j].peer));
    if report_evicted(report).contains(report[j].peer) {
        let n = choose|n: int|
            0 <= n < report.len() && (#[trigger] report[n]).peer == report[j].peer && evicts(
                report[n].outcome,
            );
        if n < j {
            assert(report[n].peer != report[j].peer);
        }
        if j < n {
            assert(report[j].peer != report[n].peer);
        }
    }
}

} // verus!
