//! The peer store: the authoritative record of every peer that ever completed
//! connection establishment, keyed by peer id. Records are never deleted;
//! stale ones decay through `Disconnected { since }` but remain for audit and
//! backoff decisions.

use vstd::prelude::*;

use crate::types::{PeerId, SocketAddress};

verus! {

/// How far along its chain a peer is, relative to ours.
#[derive(Clone, Copy, Debug, PartialEq, Eq, Structural)]
pub enum SyncStatus {
    /// At the current state of our node or ahead of us.
    Synced,
    /// Has greater knowledge of the canonical chain than we do.
    Advanced,
    /// Behind our current head and not useful for block downloads.
    Behind,
    /// On an incompatible network.
    IrrelevantPeer,
    /// Not yet known: no STATUS handshake has completed.
    Unknown,
}

/// The connection lifecycle of a peer.
#[derive(Clone, Copy, Debug, PartialEq, Eq, Structural)]
pub enum ConnectionStatus {
    /// The peer is connected.
    Connected,
    /// The peer is being disconnected.
    Disconnecting,
    /// All connections to the peer are gone, since the given time (seconds).
    Disconnected { since: u64 },
}

/// Everything the store keeps about one peer.
#[derive(Clone, Copy, Debug, PartialEq, Eq, Structural)]
pub struct PeerInfo {
    pub listening_address: SocketAddress,
    pub sync_status: SyncStatus,
    pub connection_status: ConnectionStatus,
}

impl PeerInfo {
    /// The record a freshly connected peer starts with.
    pub fn new(listening_address: SocketAddress) -> (info: PeerInfo)
        ensures
            info == (PeerInfo {
                listening_address,
                sync_status: SyncStatus::Unknown,
                connection_status: ConnectionStatus::Connected,
            }),
    {
        PeerInfo {
            listening_address,
            sync_status: SyncStatus::Unknown,
            connection_status: ConnectionStatus::Connected,
        }
    }
}

/// How many of the records in `s` are currently connected.
pub open spec fn spec_connected_count(s: Seq<(PeerId, PeerInfo)>) -> int
    decreases s.len(),
{
    if s.len() == 0 {
        0
    } else {
        spec_connected_count(s.drop_last()) + if s.last().1.connection_status
            == ConnectionStatus::Connected {
            1int
        } else {
            0int
        }
    }
}

/// The peer store.
pub struct PeerDB {
    peers: Vec<(PeerId, PeerInfo)>,
}

impl PeerDB {
    /// The stored records, in insertion order.
    pub closed spec fn view(self) -> Seq<(PeerId, PeerInfo)> {
        self.peers@
    }

    /// Keys are unique: one record per peer.
    pub open spec fn wf(self) -> bool {
        forall|i: int, j: int|
            0 <= i < j < self@.len() ==> (#[trigger] self@[i].0)@ != (#[trigger] self@[j].0)@
    }

    /// A record for this peer exists.
    pub open spec fn spec_has(self, peer: Seq<u8>) -> bool {
        exists|i: int| 0 <= i < self@.len() && (#[trigger] self@[i].0)@ == peer
    }

    /// The index of this peer's record.
    pub open spec fn spec_index_of(self, peer: Seq<u8>) -> int {
        choose|i: int| 0 <= i < self@.len() && (#[trigger] self@[i].0)@ == peer
    }

    /// This peer's record.
    pub open spec fn spec_info(self, peer: Seq<u8>) -> PeerInfo {
        self@[self.spec_index_of(peer)].1
    }

    /// How many peers are currently connected.
    pub open spec fn spec_active_count(self) -> int {
        spec_connected_count(self@)
    }

    pub fn new() -> (db: PeerDB)
        ensures
            db@.len() == 0,
            db.wf(),
    {
        PeerDB { peers: Vec::new() }
    }

    /// The index of this peer's record, if any.
    fn find(&self, peer_id: &PeerId) -> (r: Option<usize>)
        ensures
            match r {
                Some(i) => i < self@.len() && self@[i as int].0@ == peer_id@,
                None => !self.spec_has(peer_id@),
            },
    {
        let n = self.peers.len();
        let mut i: usize = 0;
        while i < n
            invariant
                n == self@.len(),
                i <= n,
                forall|j: int| 0 <= j < i ==> (#[trigger] self@[j].0)@ != peer_id@,
            decreases n - i,
        {
            if &self.peers[i].0 == peer_id {
                return Some(i);
            }
            i = i + 1;
        }
        None
    }

    /// Is there a record for this peer?
    pub fn has_peer(&self, peer_id: &PeerId) -> (r: bool)
        ensures
            r == self.spec_has(peer_id@),
    {
        self.find(peer_id).is_some()
    }

    /// This peer's record, if any.
    pub fn info_of(&self, peer_id: &PeerId) -> (r: Option<PeerInfo>)
        requires
            self.wf(),
        ensures
            match r {
                Some(info) => self.spec_has(peer_id@) && info == self.spec_info(peer_id@),
                None => !self.spec_has(peer_id@),
            },
    {
        match self.find(peer_id) {
            Some(i) => {
                let info = self.peers[i].1;
                proof {
                    let k = self.spec_index_of(peer_id@);
                    assert(0 <= k < self@.len() && self@[k].0@ == peer_id@);
                    assert(k == i as int);
                }
                Some(info)
            },
            None => None,
        }
    }

    /// Record a peer that just completed connection establishment. An
    /// existing record is replaced by a fresh one: address as given, sync
    /// status unknown, connection status connected.
    pub fn add_peer(&mut self, peer_id: PeerId, address: SocketAddress)
        requires
            old(self).wf(),
        ensures
            final(self).wf(),
            final(self).spec_has(peer_id@),
            final(self).spec_info(peer_id@) == (PeerInfo {
                listening_address: address,
                sync_status: SyncStatus::Unknown,
                connection_status: ConnectionStatus::Connected,
            }),
            forall|q: Seq<u8>| old(self).spec_has(q) ==> final(self).spec_has(q),
            forall|q: Seq<u8>| final(self).spec_has(q) ==> old(self).spec_has(q) || q == peer_id@,
            forall|q: Seq<u8>|
                #![auto]
                final(self).spec_has(q) && q != peer_id@ ==> old(self).spec_has(q) && final(self).spec_info(q)
                    == old(self).spec_info(q),
            final(self)@.len() == old(self)@.len() + if old(self).spec_has(peer_id@) {
                0int
            } else {
                1int
            },
    {
        let info = PeerInfo::new(address);
        match self.find(&peer_id) {
            Some(i) => {
                let ghost pre = self@;
                let (id, _) = self.peers.remove(i);
                self.peers.insert(i, (id, info));
                proof {
                    assert(self@ =~= pre.update(i as int, (pre[i as int].0, info)));
                    assert(forall|k: int| 0 <= k < self@.len() ==> (#[trigger] self@[k].0) == pre[k].0);
                    assert(self.wf());
                    assert(self@[i as int].0@ == peer_id@);
                    self.lemma_unique_index(peer_id@);
                    assert(self.spec_index_of(peer_id@) == i as int);
                }
            },
            None => {
                let ghost pre = self@;
                let ghost pid = peer_id@;
                self.peers.push((peer_id, info));
                proof {
                    assert(self@ == pre.push((self@[pre.len() as int].0, info)));
                    assert(self@[pre.len() as int].0@ == pid);
                    assert(forall|k: int| 0 <= k < pre.len() ==> (#[trigger] self@[k].0) == pre[k].0);
                    assert(self.wf());
                    assert(self.spec_has(pid));
                    self.lemma_unique_index(pid);
                    assert(self.spec_index_of(pid) == pre.len() as int);
                }
            },
        }
        proof {
            assert(self.spec_has(peer_id@));
            assert(self.spec_info(peer_id@) == info);
            assert forall|q: Seq<u8>| old(self).spec_has(q) implies self.spec_has(q) by {
                let k = choose|k: int|
                    0 <= k < old(self)@.len() && (#[trigger] old(self)@[k].0)@ == q;
                assert(self@[k].0@ == q);
            }
            assert forall|q: Seq<u8>|
                #![auto]
                self.spec_has(q) && q != peer_id@ implies old(self).spec_has(q) && self.spec_info(q)
                == old(self).spec_info(q) by {
                let k = choose|k: int| 0 <= k < self@.len() && (#[trigger] self@[k].0)@ == q;
                assert(old(self)@[k].0@ == q);
                self.lemma_unique_index(q);
                old(self).lemma_unique_index(q);
            }
        }
    }

    /// With unique keys, any index holding the key is the chosen index.
    proof fn lemma_unique_index(self, peer: Seq<u8>)
        requires
            self.wf(),
        ensures
            forall|i: int|
                0 <= i < self@.len() && (#[trigger] self@[i].0)@ == peer ==> i
                    == self.spec_index_of(peer),
    {
        assert forall|i: int|
            0 <= i < self@.len() && (#[trigger] self@[i].0)@ == peer implies i == self.spec_index_of(
            peer,
        ) by {
            assert(self.spec_has(peer));
            let k = self.spec_index_of(peer);
            assert(0 <= k < self@.len() && self@[k].0@ == peer);
            if i < k {
                assert(self@[i].0@ != self@[k].0@);
            } else if k < i {
                assert(self@[k].0@ != self@[i].0@);
            }
        }
    }

    /// Update a peer's sync status after a validated STATUS exchange. A peer
    /// without a record is left untouched.
    pub fn update_sync_status(&mut self, peer_id: &PeerId, sync_status: SyncStatus)
        requires
            old(self).wf(),
        ensures
            final(self).wf(),
            !old(self).spec_has(peer_id@) ==> *final(self) == *old(self),
            old(self).spec_has(peer_id@) ==> {
                &&& final(self).spec_has(peer_id@)
                &&& final(self).spec_info(peer_id@) == (PeerInfo {
                    sync_status,
                    ..old(self).spec_info(peer_id@)
                })
            },
            forall|q: Seq<u8>| final(self).spec_has(q) <==> old(self).spec_has(q),
            forall|q: Seq<u8>|
                #![auto]
                final(self).spec_has(q) && q != peer_id@ ==> final(self).spec_info(q) == old(self).spec_info(q),
            final(self)@.len() == old(self)@.len(),
    {
        match self.find(peer_id) {
            None => {
                // Peer not found: nothing to update.
            },
            Some(i) => {
                let ghost pre = self@;
                let (id, old_info) = self.peers.remove(i);
                let new_info = PeerInfo { sync_status, ..old_info };
                self.peers.insert(i, (id, new_info));
                proof {
                    assert(self@ =~= pre.update(i as int, (pre[i as int].0, new_info)));
                    self.lemma_unique_index(peer_id@);
                    old(self).lemma_unique_index(peer_id@);
                    assert forall|q: Seq<u8>| self.spec_has(q) implies old(self).spec_has(q) by {
                        let k = choose|k: int|
                            0 <= k < self@.len() && (#[trigger] self@[k].0)@ == q;
                        assert(old(self)@[k].0@ == q);
                    }
                    assert forall|q: Seq<u8>| old(self).spec_has(q) implies self.spec_has(q) by {
                        let k = choose|k: int|
                            0 <= k < old(self)@.len() && (#[trigger] old(self)@[k].0)@ == q;
                        assert(self@[k].0@ == q);
                    }
                    assert forall|q: Seq<u8>|
                        #![auto]
                        self.spec_has(q) && q != peer_id@ implies self.spec_info(q) == old(
                        self,
                    ).spec_info(q) by {
                        self.lemma_unique_index(q);
                        old(self).lemma_unique_index(q);
                        let k = choose|k: int|
                            0 <= k < self@.len() && (#[trigger] self@[k].0)@ == q;
                        assert(old(self)@[k].0@ == q);
                    }
                }
            },
        }
    }

    /// Update a peer's connection status on a swarm connection-lifecycle
    /// event. A peer without a record is left untouched.
    pub fn update_connection_status(&mut self, peer_id: &PeerId, connection_status: ConnectionStatus)
        requires
            old(self).wf(),
        ensures
            final(self).wf(),
            !old(self).spec_has(peer_id@) ==> *final(self) == *old(self),
            old(self).spec_has(peer_id@) ==> {
                &&& final(self).spec_has(peer_id@)
                &&& final(self).spec_info(peer_id@) == (PeerInfo {
                    connection_status,
                    ..old(self).spec_info(peer_id@)
                })
            },
            forall|q: Seq<u8>| final(self).spec_has(q) <==> old(self).spec_has(q),
            forall|q: Seq<u8>|
                #![auto]
                final(self).spec_has(q) && q != peer_id@ ==> final(self).spec_info(q) == old(self).spec_info(q),
            final(self)@.len() == old(self)@.len(),
    {
        match self.find(peer_id) {
            None => {
                // Peer not found: nothing to update.
            },
            Some(i) => {
                let ghost pre = self@;
                let (id, old_info) = self.peers.remove(i);
                let new_info = PeerInfo { connection_status, ..old_info };
                self.peers.insert(i, (id, new_info));
                proof {
                    assert(self@ =~= pre.update(i as int, (pre[i as int].0, new_info)));
                    self.lemma_unique_index(peer_id@);
                    old(self).lemma_unique_index(peer_id@);
                    assert forall|q: Seq<u8>| self.spec_has(q) implies old(self).spec_has(q) by {
                        let k = choose|k: int|
                            0 <= k < self@.len() && (#[trigger] self@[k].0)@ == q;
                        assert(old(self)@[k].0@ == q);
                    }
                    assert forall|q: Seq<u8>| old(self).spec_has(q) implies self.spec_has(q) by {
                        let k = choose|k: int|
                            0 <= k < old(self)@.len() && (#[trigger] old(self)@[k].0)@ == q;
                        assert(self@[k].0@ == q);
                    }
                    assert forall|q: Seq<u8>|
                        #![auto]
                        self.spec_has(q) && q != peer_id@ implies self.spec_info(q) == old(
                        self,
                    ).spec_info(q) by {
                        self.lemma_unique_index(q);
                        old(self).lemma_unique_index(q);
                        let k = choose|k: int|
                            0 <= k < self@.len() && (#[trigger] self@[k].0)@ == q;
                        assert(old(self)@[k].0@ == q);
                    }
                }
            },
        }
    }

    /// How many peers have a record, connected or not.
    pub fn peer_count(&self) -> (n: usize)
        ensures
            n == self@.len(),
    {
        self.peers.len()
    }

    /// How many peers are currently connected.
    pub fn active_peer_count(&self) -> (n: usize)
        ensures
            n == self.spec_active_count(),
    {
        let total = self.peers.len();
        let mut count: usize = 0;
        let mut i: usize = 0;
        while i < total
            invariant
                total == self@.len(),
                i <= total,
                count == spec_connected_count(self@.take(i as int)),
                count <= i,
            decreases total - i,
        {
            let connected = match self.peers[i].1.connection_status {
                ConnectionStatus::Connected => true,
                _ => false,
            };
            if connected {
                count = count + 1;
            }
            proof {
                assert(self@.take(i + 1).drop_last() =~= self@.take(i as int));
                assert(self@.take(i + 1).last() == self@[i as int]);
            }
            i = i + 1;
        }
        proof {
            assert(self@.take(total as int) =~= self@);
        }
        count
    }
}

} // verus!
