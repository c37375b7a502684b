//! Peer lifecycle management: tracks connection establishment and closure,
//! enforces the target peer count through a heartbeat, re-STATUSes peers on a
//! fixed interval, and gates dial attempts so a peer is dialed at most once
//! at a time.

use vstd::prelude::*;

use crate::peer_db::{ConnectionStatus, PeerDB, SyncStatus};
use crate::rpc::GoodbyeReason;
use crate::types::{PeerId, SocketAddress};

verus! {

/// Seconds between heartbeats: the routine maintenance that requests more
/// peers when the pool is low.
pub const HEARTBEAT_INTERVAL: u64 = 30;

/// Seconds between re-STATUS exchanges with a peer.
pub const STATUS_INTERVAL: u64 = 300;

/// The events the peer manager emits to the behaviour composer.
#[derive(Debug)]
pub enum PeerManagerEvent {
    /// A peer has dialed us.
    PeerConnectedIncoming(PeerId),
    /// A peer has been dialed.
    PeerConnectedOutgoing(PeerId),
    /// Request the behaviour to discover more peers.
    NeedMorePeers,
    /// Request to send a STATUS to a peer.
    SendStatus(PeerId),
    /// The peer should be disconnected.
    DisconnectPeer(PeerId, GoodbyeReason),
}

/// How a connection to a peer was established.
#[derive(Debug)]
pub enum ConnectedPoint {
    /// We dialed the node.
    Dialer { address: SocketAddress },
    /// We received the node.
    Listener { send_back_addr: SocketAddress },
}

/// What one scheduling step of the peer manager asks the swarm layer to do.
#[derive(Debug)]
pub enum PeerManagerAction {
    /// Surface this event to the behaviour composer.
    GenerateEvent(PeerManagerEvent),
    /// Dial this peer.
    Dial(PeerId),
}

/// Is this event a SendStatus for the peer with this id?
pub open spec fn spec_is_send_status(event: PeerManagerEvent, q: Seq<u8>) -> bool {
    event matches PeerManagerEvent::SendStatus(p) && p@ == q
}

/// No SendStatus for this peer sits in the queue.
pub open spec fn spec_no_send_status(events: Seq<PeerManagerEvent>, q: Seq<u8>) -> bool {
    forall|k: int| 0 <= k < events.len() ==> !spec_is_send_status(#[trigger] events[k], q)
}

/// The event is a SendStatus for a peer whose re-status timer in `timers`
/// has expired by `now`.
pub open spec fn spec_is_expired_send_status(
    timers: Seq<(PeerId, u64)>,
    now: u64,
    event: PeerManagerEvent,
) -> bool {
    exists|j: int|
        0 <= j < timers.len() && (#[trigger] timers[j]).1 <= now && spec_is_send_status(
            event,
            timers[j].0@,
        )
}

/// The peer manager.
pub struct PeerManager {
    /// Events queued for the composer, oldest first.
    pub events: Vec<PeerManagerEvent>,
    /// Target number of peers to connect to.
    pub target_peers_count: usize,
    /// When the next heartbeat is due (seconds).
    pub next_heartbeat: u64,
    /// Peers awaiting a re-STATUS, each with the time its timer expires.
    pub status_peers: Vec<(PeerId, u64)>,
    /// Peers queued to be dialed, oldest first.
    pub peers_to_dial: Vec<PeerId>,
    /// Peers with a dial attempt currently in flight.
    pub dialing_peers: Vec<PeerId>,
}

impl PeerManager {
    /// Re-status timers and in-flight dials hold one entry per peer.
    pub open spec fn wf(self) -> bool {
        &&& forall|i: int, j: int|
            0 <= i < j < self.status_peers@.len() ==> (#[trigger] self.status_peers@[i].0)@ != (
            #[trigger] self.status_peers@[j].0)@
        &&& forall|i: int, j: int|
            0 <= i < j < self.dialing_peers@.len() ==> (#[trigger] self.dialing_peers@[i])@ != (
            #[trigger] self.dialing_peers@[j])@
    }

    /// A dial attempt to this peer is in flight.
    pub open spec fn spec_dialing(self, q: Seq<u8>) -> bool {
        exists|i: int|
            0 <= i < self.dialing_peers@.len() && (#[trigger] self.dialing_peers@[i])@ == q
    }

    /// A re-status timer exists for this peer.
    pub open spec fn spec_has_status_timer(self, q: Seq<u8>) -> bool {
        exists|i: int|
            0 <= i < self.status_peers@.len() && (#[trigger] self.status_peers@[i].0)@ == q
    }

    /// The heartbeat is due.
    pub open spec fn spec_heartbeat_due(self, now: u64) -> bool {
        now >= self.next_heartbeat
    }

    /// The dial gate: a dial executes only if no connection to the peer
    /// exists (it is absent from the store or marked disconnected) and no
    /// dial attempt to it is already in flight.
    pub open spec fn spec_dial_allowed(self, db: PeerDB, q: Seq<u8>) -> bool {
        &&& !self.spec_dialing(q)
        &&& (db.spec_has(q) ==> db.spec_info(q).connection_status matches
            ConnectionStatus::Disconnected { .. })
    }

    /// How one scheduling step may move the set of in-flight dials: it only
    /// grows, and a dial is emitted only for a peer that had none in flight,
    /// which afterwards has one.
    pub open spec fn spec_dial_step(
        pre: PeerManager,
        post: PeerManager,
        dialed: Option<Seq<u8>>,
    ) -> bool {
        &&& forall|q: Seq<u8>| pre.spec_dialing(q) ==> post.spec_dialing(q)
        &&& match dialed {
            Some(q) => !pre.spec_dialing(q) && post.spec_dialing(q),
            None => true,
        }
    }

    /// The peer a step asked to dial, if any.
    pub open spec fn spec_dialed_of(r: Option<PeerManagerAction>) -> Option<Seq<u8>> {
        match r {
            Some(PeerManagerAction::Dial(p)) => Some(p@),
            _ => None,
        }
    }

    /// How one scheduling step treats re-status timers: a SendStatus for a
    /// peer is returned only off the front of the queue, and is newly queued
    /// only when one of the peer's timers has expired. So a peer whose
    /// timers all lie in the future, and for whom nothing is queued, gets no
    /// SendStatus out of this step.
    pub open spec fn spec_tick_respects_status_timers(
        pre: PeerManager,
        post: PeerManager,
        now: u64,
        r: Option<PeerManagerAction>,
    ) -> bool {
        forall|q: Seq<u8>|
            #![auto]
            (spec_no_send_status(pre.events@, q) && (forall|i: int|
                0 <= i < pre.status_peers@.len() && (#[trigger] pre.status_peers@[i].0)@ == q
                    ==> pre.status_peers@[i].1 > now)) ==> (spec_no_send_status(post.events@, q)
                && match r {
                Some(PeerManagerAction::GenerateEvent(e)) => !spec_is_send_status(e, q),
                _ => true,
            })
    }

    /// What `statusd_peer(q)` at time `t` does to the manager: afterwards
    /// every timer held for `q` (there is exactly one) expires at
    /// `t + STATUS_INTERVAL`, and the event queue is untouched.
    pub open spec fn spec_statusd_post(
        pre: PeerManager,
        post: PeerManager,
        q: Seq<u8>,
        t: u64,
    ) -> bool {
        &&& post.events@ == pre.events@
        &&& post.spec_has_status_timer(q)
        &&& forall|i: int|
            0 <= i < post.status_peers@.len() && (#[trigger] post.status_peers@[i].0)@ == q
                ==> post.status_peers@[i].1 == t + STATUS_INTERVAL
    }

    pub fn new(target_peers_count: usize, now: u64) -> (m: PeerManager)
        ensures
            m.events@.len() == 0,
            m.target_peers_count == target_peers_count,
            m.next_heartbeat == now,
            m.status_peers@.len() == 0,
            m.peers_to_dial@.len() == 0,
            m.dialing_peers@.len() == 0,
            m.wf(),
    {
        PeerManager {
            events: Vec::new(),
            target_peers_count,
            // The first heartbeat fires immediately.
            next_heartbeat: now,
            status_peers: Vec::new(),
            peers_to_dial: Vec::new(),
            dialing_peers: Vec::new(),
        }
    }

    /// Whether the pool is below the target peer count.
    pub fn need_more_peers(&self, peer_db: &PeerDB) -> (r: bool)
        ensures
            r == (peer_db.spec_active_count() < self.target_peers_count),
    {
        let count = peer_db.active_peer_count();
        count < self.target_peers_count
    }

    /// Enqueue a dial request. Whether the dial executes is decided at dial
    /// time, not enqueue time.
    pub fn dial_peer(&mut self, peer_id: PeerId)
        ensures
            final(self).peers_to_dial@ == old(self).peers_to_dial@.push(peer_id),
            final(self).events@ == old(self).events@,
            final(self).target_peers_count == old(self).target_peers_count,
            final(self).next_heartbeat == old(self).next_heartbeat,
            final(self).status_peers@ == old(self).status_peers@,
            final(self).dialing_peers@ == old(self).dialing_peers@,
            old(self).wf() ==> final(self).wf(),
    {
        self.peers_to_dial.push(peer_id);
    }

    /// A STATUS was exchanged with this peer (sent or received): reset its
    /// re-status timer to a full interval from now.
    pub fn statusd_peer(&mut self, peer_id: PeerId, now: u64)
        requires
            old(self).wf(),
            now + STATUS_INTERVAL <= u64::MAX,
        ensures
            final(self).wf(),
            PeerManager::spec_statusd_post(*old(self), *final(self), peer_id@, now),
            final(self).status_peers@.len() == old(self).status_peers@.len() + if old(self).spec_has_status_timer(peer_id@) {
                0int
            } else {
                1int
            },
            forall|i: int|
                0 <= i < final(self).status_peers@.len() && (#[trigger] final(self).status_peers@[i].0)@ != peer_id@ ==> 0 <= i < old(self).status_peers@.len()
                    && final(self).status_peers@[i] == old(self).status_peers@[i],
            final(self).peers_to_dial@ == old(self).peers_to_dial@,
            final(self).dialing_peers@ == old(self).dialing_peers@,
            final(self).next_heartbeat == old(self).next_heartbeat,
            final(self).target_peers_count == old(self).target_peers_count,
    {
        let expiry = now + STATUS_INTERVAL;
        let n = self.status_peers.len();
        let mut i: usize = 0;
        while i < n
            invariant
                *self == *old(self),
                old(self).wf(),
                expiry == now + STATUS_INTERVAL,
                n == self.status_peers@.len(),
                i <= n,
                forall|j: int| 0 <= j < i ==> (#[trigger] self.status_peers@[j].0)@ != peer_id@,
            decreases n - i,
        {
            if &self.status_peers[i].0 == &peer_id {
                let ghost pre = self.status_peers@;
                let (id, _) = self.status_peers.remove(i);
                self.status_peers.insert(i, (id, expiry));
                proof {
                    assert(self.status_peers@ =~= pre.update(
                        i as int,
                        self.status_peers@[i as int],
                    ));
                    assert forall|k: int|
                        0 <= k < self.status_peers@.len() && (#[trigger] self.status_peers@[k].0)@
                            == peer_id@ implies self.status_peers@[k].1 == now + STATUS_INTERVAL by {
                        if k != i as int {
                            assert(pre[k].0@ != pre[i as int].0@);
                        }
                    }
                    assert(self.status_peers@[i as int].0@ == peer_id@);
                    assert(self.spec_has_status_timer(peer_id@));
                }
                return ;
            }
            i = i + 1;
        }
        let ghost pre_len = self.status_peers@.len();
        self.status_peers.push((peer_id, expiry));
        proof {
            assert(self.status_peers@[pre_len as int].0@ == peer_id@);
            assert(self.spec_has_status_timer(peer_id@));
        }
    }

    /// Disconnect a peer with a reason: an irrelevant-network goodbye also
    /// marks the peer's sync status irrelevant; the connection status turns
    /// to disconnecting; and the composer is asked to send the GOODBYE.
    pub fn goodbye(&mut self, peer_db: &mut PeerDB, peer_id: &PeerId, reason: GoodbyeReason)
        requires
            old(peer_db).wf(),
        ensures
            final(peer_db).wf(),
            !old(peer_db).spec_has(peer_id@) ==> *final(peer_db) == *old(peer_db),
            old(peer_db).spec_has(peer_id@) ==> {
                &&& final(peer_db).spec_has(peer_id@)
                &&& final(peer_db).spec_info(peer_id@).connection_status
                    == ConnectionStatus::Disconnecting
                &&& final(peer_db).spec_info(peer_id@).sync_status == if reason
                    == GoodbyeReason::IrrelevantNetwork {
                    SyncStatus::IrrelevantPeer
                } else {
                    old(peer_db).spec_info(peer_id@).sync_status
                }
                &&& final(peer_db).spec_info(peer_id@).listening_address == old(peer_db).spec_info(peer_id@).listening_address
            },
            forall|q: Seq<u8>| final(peer_db).spec_has(q) <==> old(peer_db).spec_has(q),
            forall|q: Seq<u8>|
                #![auto]
                final(peer_db).spec_has(q) && q != peer_id@ ==> final(peer_db).spec_info(q) == old(peer_db).spec_info(q),
            final(self).events@.len() == old(self).events@.len() + 1,
            forall|k: int|
                0 <= k < old(self).events@.len() ==> (#[trigger] final(self).events@[k]) == old(self).events@[k],
            final(self).events@.last() matches PeerManagerEvent::DisconnectPeer(p, r) && p@
                == peer_id@ && r == reason,
            final(self).status_peers@ == old(self).status_peers@,
            final(self).peers_to_dial@ == old(self).peers_to_dial@,
            final(self).dialing_peers@ == old(self).dialing_peers@,
            final(self).next_heartbeat == old(self).next_heartbeat,
            final(self).target_peers_count == old(self).target_peers_count,
            old(self).wf() ==> final(self).wf(),
    {
        if matches!(reason, GoodbyeReason::IrrelevantNetwork) {
            peer_db.update_sync_status(peer_id, SyncStatus::IrrelevantPeer);
        }

        peer_db.update_connection_status(peer_id, ConnectionStatus::Disconnecting);

        self.events.push(PeerManagerEvent::DisconnectPeer(peer_id.clone(), reason));
    }

    /// Whether a dial attempt to this peer is in flight.
    fn is_dialing(&self, peer_id: &PeerId) -> (r: bool)
        ensures
            r == self.spec_dialing(peer_id@),
    {
        let n = self.dialing_peers.len();
        let mut i: usize = 0;
        while i < n
            invariant
                n == self.dialing_peers@.len(),
                i <= n,
                forall|j: int| 0 <= j < i ==> (#[trigger] self.dialing_peers@[j])@ != peer_id@,
            decreases n - i,
        {
            if &self.dialing_peers[i] == peer_id {
                return true;
            }
            i = i + 1;
        }
        false
    }

    /// Queue a SendStatus for every expired re-status timer and rearm each
    /// expired timer a full interval from now.
    fn drain_status_timers(&mut self, now: u64)
        requires
            old(self).wf(),
            now + STATUS_INTERVAL <= u64::MAX,
        ensures
            final(self).wf(),
            final(self).status_peers@.len() == old(self).status_peers@.len(),
            forall|j: int|
                0 <= j < old(self).status_peers@.len() ==> (#[trigger] final(self).status_peers@[j]).0@ == old(self).status_peers@[j].0@,
            forall|j: int|
                0 <= j < old(self).status_peers@.len() ==> (#[trigger] final(self).status_peers@[j]).1 == if old(self).status_peers@[j].1 <= now {
                    (now + STATUS_INTERVAL) as u64
                } else {
                    old(self).status_peers@[j].1
                },
            final(self).events@.len() >= old(self).events@.len(),
            forall|k: int|
                0 <= k < old(self).events@.len() ==> (#[trigger] final(self).events@[k]) == old(self).events@[k],
            forall|k: int|
                old(self).events@.len() <= k < final(self).events@.len()
                    ==> spec_is_expired_send_status(
                    old(self).status_peers@,
                    now,
                    #[trigger] final(self).events@[k],
                ),
            final(self).target_peers_count == old(self).target_peers_count,
            final(self).next_heartbeat == old(self).next_heartbeat,
            final(self).peers_to_dial@ == old(self).peers_to_dial@,
            final(self).dialing_peers@ == old(self).dialing_peers@,
    {
        let n = self.status_peers.len();
        let mut i: usize = 0;
        while i < n
            invariant
                old(self).wf(),
                self.wf(),
                now + STATUS_INTERVAL <= u64::MAX,
                self.target_peers_count == old(self).target_peers_count,
                self.next_heartbeat == old(self).next_heartbeat,
                self.peers_to_dial@ == old(self).peers_to_dial@,
                self.dialing_peers@ == old(self).dialing_peers@,
                n == self.status_peers@.len(),
                n == old(self).status_peers@.len(),
                i <= n,
                forall|j: int|
                    0 <= j < n ==> (#[trigger] self.status_peers@[j]).0@ == old(self).status_peers@[j].0@,
                forall|j: int|
                    0 <= j < i ==> (#[trigger] self.status_peers@[j]).1 == if old(self).status_peers@[j].1 <= now {
                        (now + STATUS_INTERVAL) as u64
                    } else {
                        old(self).status_peers@[j].1
                    },
                forall|j: int|
                    i <= j < n ==> (#[trigger] self.status_peers@[j]) == old(self).status_peers@[j],
                self.events@.len() >= old(self).events@.len(),
                forall|k: int|
                    0 <= k < old(self).events@.len() ==> (#[trigger] self.events@[k]) == old(self).events@[k],
                forall|k: int|
                    old(self).events@.len() <= k < self.events@.len()
                        ==> spec_is_expired_send_status(
                        old(self).status_peers@,
                        now,
                        #[trigger] self.events@[k],
                    ),
            decreases n - i,
        {
            if self.status_peers[i].1 <= now {
                let ghost pre = self.status_peers@;
                let (id, _) = self.status_peers.remove(i);
                let event_id = id.clone();
                self.status_peers.insert(i, (id, now + STATUS_INTERVAL));
                self.events.push(PeerManagerEvent::SendStatus(event_id));
                proof {
                    assert(self.status_peers@ =~= pre.update(
                        i as int,
                        self.status_peers@[i as int],
                    ));
                    assert((old(self).status_peers@[i as int]).1 <= now);
                    assert(spec_is_send_status(
                        self.events@.last(),
                        old(self).status_peers@[i as int].0@,
                    ));
                    assert(spec_is_expired_send_status(
                        old(self).status_peers@,
                        now,
                        self.events@.last(),
                    ));
                }
            }
            i = i + 1;
        }
    }

    /// Drop this peer from the in-flight dials, if present.
    fn clear_dialing(&mut self, peer_id: &PeerId)
        requires
            old(self).wf(),
        ensures
            final(self).wf(),
            !final(self).spec_dialing(peer_id@),
            forall|q: Seq<u8>|
                q != peer_id@ ==> (final(self).spec_dialing(q) <==> old(self).spec_dialing(q)),
            final(self).events@ == old(self).events@,
            final(self).status_peers@ == old(self).status_peers@,
            final(self).peers_to_dial@ == old(self).peers_to_dial@,
            final(self).next_heartbeat == old(self).next_heartbeat,
            final(self).target_peers_count == old(self).target_peers_count,
    {
        let n = self.dialing_peers.len();
        let mut i: usize = 0;
        while i < n
            invariant
                *self == *old(self),
                old(self).wf(),
                n == self.dialing_peers@.len(),
                i <= n,
                forall|j: int| 0 <= j < i ==> (#[trigger] self.dialing_peers@[j])@ != peer_id@,
            decreases n - i,
        {
            if &self.dialing_peers[i] == peer_id {
                let ghost pre = self.dialing_peers@;
                let _ = self.dialing_peers.remove(i);
                proof {
                    assert forall|q: Seq<u8>|
                        q != peer_id@ && old(self).spec_dialing(q) implies self.spec_dialing(
                        q,
                    ) by {
                        let k = choose|k: int|
                            0 <= k < pre.len() && (#[trigger] pre[k])@ == q;
                        if k < i {
                            assert(self.dialing_peers@[k]@ == q);
                        } else {
                            assert(self.dialing_peers@[k - 1]@ == q);
                        }
                    }
                    assert forall|q: Seq<u8>| self.spec_dialing(q) implies old(self).spec_dialing(
                        q,
                    ) by {
                        let k = choose|k: int|
                            0 <= k < self.dialing_peers@.len() && (
                            #[trigger] self.dialing_peers@[k])@ == q;
                        if k < i {
                            assert(pre[k]@ == q);
                        } else {
                            assert(pre[k + 1]@ == q);
                        }
                    }
                    assert(!self.spec_dialing(peer_id@)) by {
                        if self.spec_dialing(peer_id@) {
                            let k = choose|k: int|
                                0 <= k < self.dialing_peers@.len() && (
                                #[trigger] self.dialing_peers@[k])@ == peer_id@;
                            if k < i {
                                assert(pre[k]@ == peer_id@);
                                assert(pre[i as int]@ == peer_id@);
                            } else {
                                assert(pre[k + 1]@ == peer_id@);
                                assert(pre[i as int]@ == peer_id@);
                            }
                        }
                    }
                }
                return ;
            }
            i = i + 1;
        }
    }

    /// A connection to this peer completed (so any in-flight dial attempt to
    /// it is over): record the peer's address in the store and queue the
    /// connected event. Only outbound connections lead to a proactive STATUS,
    /// which the composer sends on seeing `PeerConnectedOutgoing`.
    pub fn on_connection_established(
        &mut self,
        peer_db: &mut PeerDB,
        peer_id: PeerId,
        endpoint: ConnectedPoint,
    )
        requires
            old(self).wf(),
            old(peer_db).wf(),
        ensures
            final(self).wf(),
            final(peer_db).wf(),
            final(peer_db).spec_has(peer_id@),
            final(peer_db).spec_info(peer_id@).connection_status == ConnectionStatus::Connected,
            final(peer_db).spec_info(peer_id@).sync_status == SyncStatus::Unknown,
            final(peer_db).spec_info(peer_id@).listening_address == match endpoint {
                ConnectedPoint::Dialer { address } => address,
                ConnectedPoint::Listener { send_back_addr } => send_back_addr,
            },
            forall|q: Seq<u8>|
                #![auto]
                final(peer_db).spec_has(q) && q != peer_id@ ==> old(peer_db).spec_has(q) && final(peer_db).spec_info(q) == old(peer_db).spec_info(q),
            final(self).events@.len() == old(self).events@.len() + 1,
            forall|k: int|
                0 <= k < old(self).events@.len() ==> (#[trigger] final(self).events@[k]) == old(self).events@[k],
            endpoint is Dialer ==> (final(self).events@.last() matches
                PeerManagerEvent::PeerConnectedOutgoing(p) && p@ == peer_id@),
            endpoint is Listener ==> (final(self).events@.last() matches
                PeerManagerEvent::PeerConnectedIncoming(p) && p@ == peer_id@),
            !final(self).spec_dialing(peer_id@),
            final(self).status_peers@ == old(self).status_peers@,
            final(self).peers_to_dial@ == old(self).peers_to_dial@,
            final(self).next_heartbeat == old(self).next_heartbeat,
            final(self).target_peers_count == old(self).target_peers_count,
    {
        // The dial attempt (if we made one) has concluded.
        self.clear_dialing(&peer_id);

        match endpoint {
            ConnectedPoint::Dialer { address } => {
                peer_db.add_peer(peer_id.clone(), address);
                self.events.push(PeerManagerEvent::PeerConnectedOutgoing(peer_id));
            },
            ConnectedPoint::Listener { send_back_addr } => {
                peer_db.add_peer(peer_id.clone(), send_back_addr);
                self.events.push(PeerManagerEvent::PeerConnectedIncoming(peer_id));
            },
        }
    }

    /// A dial attempt to this peer failed before any connection existed:
    /// clear the in-flight mark so the peer may be dialed again.
    pub fn on_dial_failure(&mut self, peer_id: &PeerId)
        requires
            old(self).wf(),
        ensures
            final(self).wf(),
            !final(self).spec_dialing(peer_id@),
            forall|q: Seq<u8>|
                q != peer_id@ ==> (final(self).spec_dialing(q) <==> old(self).spec_dialing(q)),
            final(self).events@ == old(self).events@,
            final(self).status_peers@ == old(self).status_peers@,
            final(self).peers_to_dial@ == old(self).peers_to_dial@,
            final(self).next_heartbeat == old(self).next_heartbeat,
            final(self).target_peers_count == old(self).target_peers_count,
    {
        self.clear_dialing(peer_id);
    }

    /// All connections to this peer are gone: forget its re-status timer and
    /// mark it disconnected as of now. A closure that leaves other
    /// connections to the peer open changes nothing.
    pub fn on_connection_closed(
        &mut self,
        peer_db: &mut PeerDB,
        peer_id: &PeerId,
        remaining_established: usize,
        now: u64,
    )
        requires
            old(self).wf(),
            old(peer_db).wf(),
        ensures
            final(self).wf(),
            final(peer_db).wf(),
            remaining_established > 0 ==> *final(self) == *old(self) && *final(peer_db) == *old(peer_db),
            remaining_established == 0 ==> {
                &&& !final(self).spec_has_status_timer(peer_id@)
                &&& (old(peer_db).spec_has(peer_id@) ==> final(peer_db).spec_info(peer_id@)
                    == (crate::peer_db::PeerInfo {
                    connection_status: ConnectionStatus::Disconnected { since: now },
                    ..old(peer_db).spec_info(peer_id@)
                }))
                &&& (!old(peer_db).spec_has(peer_id@) ==> *final(peer_db) == *old(peer_db))
                &&& final(self).events@ == old(self).events@
                &&& final(self).peers_to_dial@ == old(self).peers_to_dial@
                &&& final(self).dialing_peers@ == old(self).dialing_peers@
                &&& final(self).next_heartbeat == old(self).next_heartbeat
            },
            forall|q: Seq<u8>| final(peer_db).spec_has(q) <==> old(peer_db).spec_has(q),
            forall|q: Seq<u8>|
                #![auto]
                final(peer_db).spec_has(q) && q != peer_id@ ==> final(peer_db).spec_info(q) == old(peer_db).spec_info(q),
            final(self).target_peers_count == old(self).target_peers_count,
    {
        if remaining_established > 0 {
            return ;
        }

        // Forget the re-status timer.
        let n = self.status_peers.len();
        let mut i: usize = 0;
        let mut found: bool = false;
        while i < n && !found
            invariant
                old(self).wf(),
                self.events@ == old(self).events@,
                self.target_peers_count == old(self).target_peers_count,
                self.next_heartbeat == old(self).next_heartbeat,
                self.peers_to_dial@ == old(self).peers_to_dial@,
                self.dialing_peers@ == old(self).dialing_peers@,
                n == old(self).status_peers@.len(),
                i <= n,
                !found ==> self.status_peers@ == old(self).status_peers@,
                !found ==> forall|j: int|
                    0 <= j < i ==> (#[trigger] self.status_peers@[j].0)@ != peer_id@,
                found ==> self.wf() && !self.spec_has_status_timer(peer_id@),
            decreases n - i, (if found { 0int } else { 1int }),
        {
            if &self.status_peers[i].0 == peer_id {
                let ghost pre = self.status_peers@;
                let _ = self.status_peers.remove(i);
                found = true;
                proof {
                    assert(!self.spec_has_status_timer(peer_id@)) by {
                        if self.spec_has_status_timer(peer_id@) {
                            let k = choose|k: int|
                                0 <= k < self.status_peers@.len() && (
                                #[trigger] self.status_peers@[k].0)@ == peer_id@;
                            if k < i {
                                assert(pre[k].0@ == peer_id@);
                                assert(pre[i as int].0@ == peer_id@);
                            } else {
                                assert(pre[k + 1].0@ == peer_id@);
                                assert(pre[i as int].0@ == peer_id@);
                            }
                        }
                    }
                }
            } else {
                i = i + 1;
            }
        }
        proof {
            if !found {
                assert(!self.spec_has_status_timer(peer_id@));
            }
        }

        peer_db.update_connection_status(peer_id, ConnectionStatus::Disconnected { since: now });
    }

    /// One scheduling step, in a fixed priority order: a due heartbeat asks
    /// for more peers when the pool is low (one event per heartbeat, however
    /// low the pool); otherwise queued events flow out, expired re-status
    /// timers queue SendStatus events and rearm, and finally the dial queue
    /// is serviced through the dial gate.
    pub fn tick(&mut self, peer_db: &PeerDB, now: u64) -> (r: Option<PeerManagerAction>)
        requires
            old(self).wf(),
            peer_db.wf(),
            now + HEARTBEAT_INTERVAL <= u64::MAX,
            now + STATUS_INTERVAL <= u64::MAX,
        ensures
            final(self).wf(),
            final(self).target_peers_count == old(self).target_peers_count,
            final(self).next_heartbeat == if old(self).spec_heartbeat_due(now) {
                (now + HEARTBEAT_INTERVAL) as u64
            } else {
                old(self).next_heartbeat
            },
            PeerManager::spec_dial_step(
                *old(self),
                *final(self),
                PeerManager::spec_dialed_of(r),
            ),
            PeerManager::spec_tick_respects_status_timers(*old(self), *final(self), now, r),
            // A due heartbeat with a low pool asks for more peers, exactly
            // once, and nothing else moves.
            old(self).spec_heartbeat_due(now) && peer_db.spec_active_count() < old(self).target_peers_count ==> {
                &&& r == Some(
                    PeerManagerAction::GenerateEvent(PeerManagerEvent::NeedMorePeers),
                )
                &&& final(self).events@ == old(self).events@
                &&& final(self).status_peers@ == old(self).status_peers@
                &&& final(self).peers_to_dial@ == old(self).peers_to_dial@
                &&& final(self).dialing_peers@ == old(self).dialing_peers@
            },
            // Queued events flow out in order.
            !(old(self).spec_heartbeat_due(now) && peer_db.spec_active_count() < old(self).target_peers_count) && old(self).events@.len() > 0 ==> {
                &&& r == Some(PeerManagerAction::GenerateEvent(old(self).events@[0]))
                &&& final(self).events@ == old(self).events@.drop_first()
                &&& final(self).status_peers@ == old(self).status_peers@
                &&& final(self).peers_to_dial@ == old(self).peers_to_dial@
                &&& final(self).dialing_peers@ == old(self).dialing_peers@
            },
            // With nothing queued: expired timers rearm and add SendStatus
            // events, and finally one dial request is taken up, subject to
            // the dial condition.
            !(old(self).spec_heartbeat_due(now) && peer_db.spec_active_count() < old(self).target_peers_count) && old(self).events@.len() == 0 ==> {
                &&& final(self).status_peers@.len() == old(self).status_peers@.len()
                &&& forall|i: int|
                    0 <= i < old(self).status_peers@.len() ==> (#[trigger] final(self).status_peers@[i]).0@ == old(self).status_peers@[i].0@
                &&& forall|i: int|
                    0 <= i < old(self).status_peers@.len() ==> (#[trigger] final(self).status_peers@[i]).1 == if old(self).status_peers@[i].1 <= now {
                        (now + STATUS_INTERVAL) as u64
                    } else {
                        old(self).status_peers@[i].1
                    }
                &&& forall|k: int|
                    0 <= k < final(self).events@.len() ==> spec_is_expired_send_status(
                        old(self).status_peers@,
                        now,
                        #[trigger] final(self).events@[k],
                    )
                &&& (old(self).peers_to_dial@.len() == 0 ==> r is None && final(self).peers_to_dial@.len() == 0 && final(self).dialing_peers@ == old(self).dialing_peers@)
                &&& (old(self).peers_to_dial@.len() > 0 ==> {
                    &&& final(self).peers_to_dial@ == old(self).peers_to_dial@.drop_first()
                    &&& (old(self).spec_dial_allowed(
                        *peer_db,
                        old(self).peers_to_dial@[0]@,
                    ) ==> (r matches Some(PeerManagerAction::Dial(p)) && p@ == old(self).peers_to_dial@[0]@) && final(self).spec_dialing(
                        old(self).peers_to_dial@[0]@,
                    ))
                    &&& (!old(self).spec_dial_allowed(*peer_db, old(self).peers_to_dial@[0]@)
                        ==> r is None && final(self).dialing_peers@ == old(self).dialing_peers@)
                })
            },
    {
        // Heartbeat: ask for more peers when the pool is low.
        if now >= self.next_heartbeat {
            self.next_heartbeat = now + HEARTBEAT_INTERVAL;
            if self.need_more_peers(peer_db) {
                return Some(PeerManagerAction::GenerateEvent(PeerManagerEvent::NeedMorePeers));
            }
        }

        // Emit a queued peer manager event.
        if self.events.len() > 0 {
            let event = self.events.remove(0);
            proof {
                assert(self.events@ =~= old(self).events@.drop_first());
            }
            return Some(PeerManagerAction::GenerateEvent(event));
        }

        // Clients need to send STATUS again to learn if the peer has a
        // higher head: queue a SendStatus for every expired timer and rearm
        // it.
        self.drain_status_timers(now);

        // Service the dial queue: the dial executes only if the peer is
        // currently disconnected and no attempt is already in flight.
        if self.peers_to_dial.len() > 0 {
            let peer = self.peers_to_dial.remove(0);
            proof {
                assert(self.peers_to_dial@ =~= old(self).peers_to_dial@.drop_first());
            }

            let already_dialing = self.is_dialing(&peer);

            let connected = match peer_db.info_of(&peer) {
                None => false,
                Some(info) => !matches!(
                    info.connection_status,
                    ConnectionStatus::Disconnected { .. },
                ),
            };

            if !already_dialing && !connected {
                self.dialing_peers.push(peer.clone());
                proof {
                    assert(self.dialing_peers@.last()@ == peer@);
                    assert(self.spec_dialing(peer@));
                    assert forall|q: Seq<u8>|
                        old(self).spec_dialing(q) implies self.spec_dialing(q) by {
                        let j = choose|j: int|
                            0 <= j < old(self).dialing_peers@.len() && (#[trigger] old(self).dialing_peers@[j])@ == q;
                        assert(self.dialing_peers@[j]@ == q);
                    }
                }
                return Some(PeerManagerAction::Dial(peer));
            }
            return None;
        }

        None
    }

    /// Law: enqueueing a dial any number of times yields at most one
    /// in-flight dial attempt. A step that emits a dial to a peer leaves an
    /// attempt in flight, and no step emits a dial to a peer with an attempt
    /// in flight - so no two steps dial the same peer until a connection
    /// outcome clears the attempt.
    pub proof fn lemma_dial_attempt_unique(
        s0: PeerManager,
        s1: PeerManager,
        s2: PeerManager,
        p: Seq<u8>,
        d2: Option<Seq<u8>>,
    )
        requires
            PeerManager::spec_dial_step(s0, s1, Some(p)),
            PeerManager::spec_dial_step(s1, s2, d2),
        ensures
            d2 != Some(p),
    {
    }

    /// Law: re-status suppression. After `statusd_peer(q)` at time `t`, as
    /// long as no SendStatus for `q` was already queued, a scheduling step
    /// taken at any time before `t + STATUS_INTERVAL` neither returns nor
    /// queues a SendStatus for `q`.
    pub proof fn lemma_re_status_suppression(
        s0: PeerManager,
        s1: PeerManager,
        s2: PeerManager,
        q: Seq<u8>,
        t: u64,
        now: u64,
        r: Option<PeerManagerAction>,
    )
        requires
            PeerManager::spec_statusd_post(s0, s1, q, t),
            spec_no_send_status(s1.events@, q),
            PeerManager::spec_tick_respects_status_timers(s1, s2, now, r),
            now < t + STATUS_INTERVAL,
        ensures
            spec_no_send_status(s2.events@, q),
            match r {
                Some(PeerManagerAction::GenerateEvent(e)) => !spec_is_send_status(e, q),
                _ => true,
            },
    {
        assert(forall|i: int|
            0 <= i < s1.status_peers@.len() && (#[trigger] s1.status_peers@[i].0)@ == q
                ==> s1.status_peers@[i].1 > now);
    }
}

} // verus!
