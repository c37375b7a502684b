//! The behaviour composer: the top-level event router. It owns the three
//! sub-behaviours - discovery, the peer manager, and the RPC behaviour -
//! and turns each one's events into calls on the others, plus a short list
//! of actions only the surrounding event loop can perform (launching DHT
//! lookups, handing operations to the sync manager).

use vstd::prelude::*;

use crate::discovery::{Discovery, DiscoveryEvent};
use crate::network::{ApplicationRequestId, NetworkMessage, ReqId, Request};
use crate::peer_db::PeerDB;
use crate::peer_manager::{PeerManager, PeerManagerEvent};
use crate::rpc::behaviour::{Behaviour, BehaviourAction, InstructionToHandler};
use crate::rpc::{GoodbyeReason, RequestType, Response, RpcEvent, RpcResponse};
use crate::status::{is_relevant, spec_is_relevant, StatusMessage};
use crate::sync::{SyncInfo, SyncOperation};
use crate::types::{PeerId, Slot};

verus! {

/// Identifier of a request: one the application asked for, or one the
/// network layer issued for itself (STATUS, GOODBYE).
#[derive(Debug, Clone, Copy, PartialEq, Eq)]
pub enum RequestId<AppReqId> {
    Application(AppReqId),
    Internal,
}

/// Events the composer emits to the event loop.
#[derive(Debug)]
pub enum BehaviourComposerEvent {
    Discovery(DiscoveryEvent),
    PeerManager(PeerManagerEvent),
    Rpc(RpcEvent),
}

impl From<DiscoveryEvent> for BehaviourComposerEvent {
    fn from(event: DiscoveryEvent) -> (r: BehaviourComposerEvent) {
        BehaviourComposerEvent::Discovery(event)
    }
}

impl vstd::std_specs::convert::FromSpecImpl<DiscoveryEvent> for BehaviourComposerEvent {
    open spec fn obeys_from_spec() -> bool {
        true
    }

    open spec fn from_spec(event: DiscoveryEvent) -> BehaviourComposerEvent {
        BehaviourComposerEvent::Discovery(event)
    }
}

impl From<PeerManagerEvent> for BehaviourComposerEvent {
    fn from(event: PeerManagerEvent) -> (r: BehaviourComposerEvent) {
        BehaviourComposerEvent::PeerManager(event)
    }
}

impl vstd::std_specs::convert::FromSpecImpl<PeerManagerEvent> for BehaviourComposerEvent {
    open spec fn obeys_from_spec() -> bool {
        true
    }

    open spec fn from_spec(event: PeerManagerEvent) -> BehaviourComposerEvent {
        BehaviourComposerEvent::PeerManager(event)
    }
}

impl From<RpcEvent> for BehaviourComposerEvent {
    fn from(event: RpcEvent) -> (r: BehaviourComposerEvent) {
        BehaviourComposerEvent::Rpc(event)
    }
}

impl vstd::std_specs::convert::FromSpecImpl<RpcEvent> for BehaviourComposerEvent {
    open spec fn obeys_from_spec() -> bool {
        true
    }

    open spec fn from_spec(event: RpcEvent) -> BehaviourComposerEvent {
        BehaviourComposerEvent::Rpc(event)
    }
}

/// What the composer asks the event loop to do.
#[derive(Debug)]
pub enum ComposerAction {
    /// Hand this operation to the sync manager.
    ToSync(SyncOperation),
    /// Launch one randomized-target DHT lookup.
    StartDiscoveryQuery,
}

/// The core behaviour that combines the sub-behaviours.
pub struct BehaviourComposer<AppReqId> {
    pub discovery: Discovery,
    pub peer_manager: PeerManager,
    pub rpc: Behaviour<RequestId<AppReqId>>,
}

impl<AppReqId: ReqId> BehaviourComposer<AppReqId> {
    pub fn new(
        discovery: Discovery,
        peer_manager: PeerManager,
        rpc: Behaviour<RequestId<AppReqId>>,
    ) -> (c: BehaviourComposer<AppReqId>)
        ensures
            c.discovery == discovery,
            c.peer_manager == peer_manager,
            c.rpc == rpc,
    {
        BehaviourComposer { discovery, peer_manager, rpc }
    }

    /// Found peers: if the pool is still low, ask for another discovery
    /// round; regardless, hand every found peer to the peer manager's dial
    /// queue.
    pub fn handle_discovery_event(&mut self, peer_db: &PeerDB, event: DiscoveryEvent) -> (actions:
        Vec<ComposerAction>)
        requires
            old(self).discovery.active_queries < usize::MAX,
        ensures
            final(self).rpc == old(self).rpc,
            event matches DiscoveryEvent::FoundPeers(peers) ==> {
                &&& final(self).peer_manager.peers_to_dial@ == old(
                    self,
                ).peer_manager.peers_to_dial@ + peers@
                &&& final(self).peer_manager.events@ == old(self).peer_manager.events@
                &&& final(self).peer_manager.status_peers@ == old(
                    self,
                ).peer_manager.status_peers@
                &&& final(self).peer_manager.dialing_peers@ == old(
                    self,
                ).peer_manager.dialing_peers@
                &&& (peer_db.spec_active_count() < old(self).peer_manager.target_peers_count
                    ==> final(self).discovery.active_queries == old(
                    self,
                ).discovery.active_queries + 1 && actions@.len() == 1 && actions@[0] is
                    StartDiscoveryQuery)
                &&& (peer_db.spec_active_count() >= old(self).peer_manager.target_peers_count
                    ==> final(self).discovery.active_queries == old(
                    self,
                ).discovery.active_queries && actions@.len() == 0)
            },
    {
        let mut actions: Vec<ComposerAction> = Vec::new();

        match event {
            DiscoveryEvent::FoundPeers(peers) => {
                if self.peer_manager.need_more_peers(peer_db) {
                    // Requesting more peers to be discovered.
                    self.discovery.discover_peers();
                    actions.push(ComposerAction::StartDiscoveryQuery);
                }

                let mut peers = peers;
                let n = peers.len();
                let ghost pre_dial = self.peer_manager.peers_to_dial@;
                let ghost peers_view = peers@;
                let ghost need_more = peer_db.spec_active_count() < old(
                    self,
                ).peer_manager.target_peers_count;
                let mut i: usize = 0;
                while i < n
                    invariant
                        n == peers_view.len(),
                        i <= n,
                        peers@ == peers_view.skip(i as int),
                        self.peer_manager.peers_to_dial@ == pre_dial + peers_view.take(i as int),
                        self.peer_manager.events@ == old(self).peer_manager.events@,
                        self.peer_manager.status_peers@ == old(self).peer_manager.status_peers@,
                        self.peer_manager.dialing_peers@ == old(self).peer_manager.dialing_peers@,
                        self.peer_manager.target_peers_count == old(
                            self,
                        ).peer_manager.target_peers_count,
                        self.peer_manager.next_heartbeat == old(self).peer_manager.next_heartbeat,
                        self.discovery.active_queries == old(self).discovery.active_queries + (
                        if need_more {
                            1int
                        } else {
                            0int
                        }),
                        need_more ==> actions@.len() == 1 && actions@[0] is StartDiscoveryQuery,
                        !need_more ==> actions@.len() == 0,
                        self.rpc == old(self).rpc,
                    decreases n - i,
                {
                    let peer = peers.remove(0);
                    proof {
                        assert(peers@ =~= peers_view.skip(i + 1));
                    }
                    self.peer_manager.dial_peer(peer);
                    proof {
                        assert(self.peer_manager.peers_to_dial@ =~= pre_dial + peers_view.take(
                            i + 1,
                        ));
                    }
                    i = i + 1;
                }
                proof {
                    assert(peers_view.take(n as int) =~= peers_view);
                }
            },
        }

        actions
    }

    /// Route a peer manager event: connected-outgoing peers get a STATUS
    /// (the dialing client must send one upon connection), a low pool starts
    /// a discovery query unless one is already running, expired re-status
    /// timers get a STATUS, and disconnections get a GOODBYE.
    pub fn handle_peer_manager_event(
        &mut self,
        local_status: StatusMessage,
        event: PeerManagerEvent,
    ) -> (actions: Vec<ComposerAction>)
        requires
            old(self).discovery.active_queries < usize::MAX,
        ensures
            final(self).peer_manager == old(self).peer_manager,
            match event {
                PeerManagerEvent::PeerConnectedIncoming(_) => *final(self) == *old(self)
                    && actions@.len() == 0,
                PeerManagerEvent::PeerConnectedOutgoing(peer) => {
                    &&& final(self).rpc.events@ == old(self).rpc.events@.push(
                        BehaviourAction::NotifyAnyHandler(
                            peer,
                            InstructionToHandler::Status(RequestId::Internal, local_status),
                        ),
                    )
                    &&& final(self).discovery == old(self).discovery
                    &&& actions@.len() == 0
                },
                PeerManagerEvent::NeedMorePeers => {
                    &&& final(self).rpc == old(self).rpc
                    &&& (old(self).discovery.active_queries == 0 ==> final(self).discovery.active_queries == 1 && actions@.len() == 1 && actions@[0] is
                        StartDiscoveryQuery)
                    &&& (old(self).discovery.active_queries > 0 ==> final(self).discovery == old(
                        self,
                    ).discovery && actions@.len() == 0)
                },
                PeerManagerEvent::SendStatus(peer) => {
                    &&& final(self).rpc.events@ == old(self).rpc.events@.push(
                        BehaviourAction::NotifyAnyHandler(
                            peer,
                            InstructionToHandler::Status(RequestId::Internal, local_status),
                        ),
                    )
                    &&& final(self).discovery == old(self).discovery
                    &&& actions@.len() == 0
                },
                PeerManagerEvent::DisconnectPeer(peer, reason) => {
                    &&& final(self).rpc.events@ == old(self).rpc.events@.push(
                        BehaviourAction::NotifyAnyHandler(
                            peer,
                            InstructionToHandler::Goodbye(RequestId::Internal, reason),
                        ),
                    )
                    &&& final(self).discovery == old(self).discovery
                    &&& actions@.len() == 0
                },
            },
    {
        let mut actions: Vec<ComposerAction> = Vec::new();

        match event {
            PeerManagerEvent::PeerConnectedIncoming(_peer) => {
                // Nothing to do for an inbound connection: the remote sends
                // the first STATUS.
            },
            PeerManagerEvent::PeerConnectedOutgoing(peer) => {
                // The dialing client must send a STATUS request upon
                // connection.
                self.rpc.send_status(RequestId::Internal, peer, local_status);
            },
            PeerManagerEvent::NeedMorePeers => {
                if !self.discovery.has_active_queries() {
                    self.discovery.discover_peers();
                    actions.push(ComposerAction::StartDiscoveryQuery);
                }
            },
            PeerManagerEvent::SendStatus(peer) => {
                self.rpc.send_status(RequestId::Internal, peer, local_status);
            },
            PeerManagerEvent::DisconnectPeer(peer, reason) => {
                self.rpc.send_goodbye(RequestId::Internal, peer, reason);
            },
        }

        actions
    }

    /// Whether the remote status is relevant to our chain, judged against
    /// our own status and clock.
    pub fn check_peer_relevance(
        &self,
        local_status: &StatusMessage,
        remote_status: &StatusMessage,
        current_slot: Slot,
    ) -> (r: bool)
        ensures
            r == spec_is_relevant(*local_status, *remote_status, current_slot),
    {
        is_relevant(local_status, remote_status, current_slot)
    }

    /// Validate a received STATUS: a relevant peer is marked status'd and
    /// handed to the sync manager; an irrelevant one is told goodbye with
    /// reason IrrelevantNetwork and torn down.
    fn validate_status_message(
        &mut self,
        peer_db: &mut PeerDB,
        local_status: StatusMessage,
        current_slot: Slot,
        peer_id: &PeerId,
        remote_status: StatusMessage,
        now: u64,
        actions: &mut Vec<ComposerAction>,
    ) -> (relevant: bool)
        requires
            old(self).peer_manager.wf(),
            old(peer_db).wf(),
            now + crate::peer_manager::STATUS_INTERVAL <= u64::MAX,
        ensures
            final(self).peer_manager.wf(),
            final(peer_db).wf(),
            relevant == spec_is_relevant(local_status, remote_status, current_slot),
            final(self).discovery == old(self).discovery,
            final(self).rpc == old(self).rpc,
            relevant ==> {
                &&& PeerManager::spec_statusd_post(
                    old(self).peer_manager,
                    final(self).peer_manager,
                    peer_id@,
                    now,
                )
                &&& final(actions)@.len() == old(actions)@.len() + 1
                &&& (final(actions)@.last() matches ComposerAction::ToSync(
                    SyncOperation::AddPeer(p, info),
                ) && p@ == peer_id@ && info == SyncInfo::spec_from_status(remote_status))
                &&& forall|k: int|
                    0 <= k < old(actions)@.len() ==> (#[trigger] final(actions)@[k]) == old(
                        actions,
                    )@[k]
                &&& *final(peer_db) == *old(peer_db)
                &&& final(self).peer_manager.events@ == old(self).peer_manager.events@
            },
            !relevant ==> {
                &&& final(actions)@ == old(actions)@
                &&& final(self).peer_manager.status_peers@ == old(
                    self,
                ).peer_manager.status_peers@
                &&& final(self).peer_manager.events@.len() == old(
                    self,
                ).peer_manager.events@.len() + 1
                &&& (final(self).peer_manager.events@.last() matches
                    PeerManagerEvent::DisconnectPeer(p, r) && p@ == peer_id@ && r
                    == GoodbyeReason::IrrelevantNetwork)
                &&& (old(peer_db).spec_has(peer_id@) ==> final(peer_db).spec_has(peer_id@)
                    && final(peer_db).spec_info(peer_id@).sync_status
                    == crate::peer_db::SyncStatus::IrrelevantPeer && final(peer_db).spec_info(
                    peer_id@,
                ).connection_status == crate::peer_db::ConnectionStatus::Disconnecting)
                &&& (!old(peer_db).spec_has(peer_id@) ==> *final(peer_db) == *old(peer_db))
            },
    {
        if self.check_peer_relevance(&local_status, &remote_status, current_slot) {
            // The peer is relevant to our beacon chain: reset its re-status
            // timer and hand it to the sync manager.
            self.peer_manager.statusd_peer(peer_id.clone(), now);
            actions.push(
                ComposerAction::ToSync(
                    SyncOperation::AddPeer(peer_id.clone(), SyncInfo::from(remote_status)),
                ),
            );
            true
        } else {
            // The remote chain is not relevant to ours: say goodbye.
            self.peer_manager.goodbye(peer_db, peer_id, GoodbyeReason::IrrelevantNetwork);
            false
        }
    }

    /// Route an RPC event. A received STATUS request is validated: a
    /// relevant peer is marked status'd, handed to sync, and answered with
    /// our own status; an irrelevant one is told goodbye. A received STATUS
    /// response takes the same validation path but needs no reply. A
    /// received GOODBYE needs nothing here: the handler's own shutdown
    /// sequence tears the connection down. Everything else is out of core
    /// scope and left unhandled.
    pub fn handle_rpc_event(
        &mut self,
        peer_db: &mut PeerDB,
        local_status: StatusMessage,
        current_slot: Slot,
        event: RpcEvent,
        now: u64,
    ) -> (actions: Vec<ComposerAction>)
        requires
            old(self).peer_manager.wf(),
            old(peer_db).wf(),
            now + crate::peer_manager::STATUS_INTERVAL <= u64::MAX,
        ensures
            final(self).peer_manager.wf(),
            final(peer_db).wf(),
            final(self).discovery == old(self).discovery,
            match event {
                RpcEvent::ReceivedRequest(request) => match request.request {
                    RequestType::Status(remote_status) => {
                        let relevant = spec_is_relevant(
                            local_status,
                            remote_status,
                            current_slot,
                        );
                        &&& (relevant ==> {
                            &&& PeerManager::spec_statusd_post(
                                old(self).peer_manager,
                                final(self).peer_manager,
                                request.peer_id@,
                                now,
                            )
                            &&& actions@.len() == 1
                            &&& (actions@[0] matches ComposerAction::ToSync(
                                SyncOperation::AddPeer(p, info),
                            ) && p@ == request.peer_id@ && info == SyncInfo::spec_from_status(
                                remote_status,
                            ))
                            &&& final(self).rpc.events@.len() == old(self).rpc.events@.len() + 1
                            &&& (final(self).rpc.events@.last() matches
                                BehaviourAction::NotifyOneHandler(p, connection, instruction)
                                && p@ == request.peer_id@ && connection == request.connection_id
                                && instruction == InstructionToHandler::<
                                RequestId<AppReqId>,
                            >::Response(request.substream_id, Response::Status(local_status)))
                            &&& *final(peer_db) == *old(peer_db)
                        })
                        &&& (!relevant ==> {
                            &&& actions@.len() == 0
                            &&& final(self).rpc == old(self).rpc
                            &&& final(self).peer_manager.status_peers@ == old(
                                self,
                            ).peer_manager.status_peers@
                            &&& final(self).peer_manager.events@.len() == old(
                                self,
                            ).peer_manager.events@.len() + 1
                            &&& (final(self).peer_manager.events@.last() matches
                                PeerManagerEvent::DisconnectPeer(p, r) && p@ == request.peer_id@
                                && r == GoodbyeReason::IrrelevantNetwork)
                            &&& (old(peer_db).spec_has(request.peer_id@) ==> final(peer_db).spec_has(request.peer_id@) && final(peer_db).spec_info(
                                request.peer_id@,
                            ).sync_status == crate::peer_db::SyncStatus::IrrelevantPeer && final(peer_db).spec_info(request.peer_id@).connection_status
                                == crate::peer_db::ConnectionStatus::Disconnecting)
                            &&& (!old(peer_db).spec_has(request.peer_id@) ==> *final(peer_db)
                                == *old(peer_db))
                        })
                    },
                    _ => *final(self) == *old(self) && *final(peer_db) == *old(peer_db)
                        && actions@.len() == 0,
                },
                RpcEvent::ReceivedResponse(response) => match response.response {
                    RpcResponse::Status(remote_status) => {
                        let relevant = spec_is_relevant(
                            local_status,
                            remote_status,
                            current_slot,
                        );
                        &&& final(self).rpc == old(self).rpc
                        &&& (relevant ==> PeerManager::spec_statusd_post(
                            old(self).peer_manager,
                            final(self).peer_manager,
                            response.peer_id@,
                            now,
                        ) && actions@.len() == 1 && (actions@[0] matches ComposerAction::ToSync(
                            SyncOperation::AddPeer(p, info),
                        ) && p@ == response.peer_id@ && info == SyncInfo::spec_from_status(
                            remote_status,
                        )) && *final(peer_db) == *old(peer_db))
                        &&& (!relevant ==> {
                            &&& actions@.len() == 0
                            &&& final(self).peer_manager.status_peers@ == old(
                                self,
                            ).peer_manager.status_peers@
                            &&& final(self).peer_manager.events@.len() == old(
                                self,
                            ).peer_manager.events@.len() + 1
                            &&& (final(self).peer_manager.events@.last() matches
                                PeerManagerEvent::DisconnectPeer(p, r) && p@ == response.peer_id@
                                && r == GoodbyeReason::IrrelevantNetwork)
                            &&& (old(peer_db).spec_has(response.peer_id@) ==> final(peer_db).spec_has(response.peer_id@) && final(peer_db).spec_info(
                                response.peer_id@,
                            ).sync_status == crate::peer_db::SyncStatus::IrrelevantPeer && final(peer_db).spec_info(response.peer_id@).connection_status
                                == crate::peer_db::ConnectionStatus::Disconnecting)
                            &&& (!old(peer_db).spec_has(response.peer_id@) ==> *final(peer_db)
                                == *old(peer_db))
                        })
                    },
                    _ => *final(self) == *old(self) && *final(peer_db) == *old(peer_db)
                        && actions@.len() == 0,
                },
            },
    {
        let mut actions: Vec<ComposerAction> = Vec::new();

        match event {
            RpcEvent::ReceivedRequest(request) => {
                match request.request {
                    RequestType::Status(remote_status) => {
                        let relevant = self.validate_status_message(
                            peer_db,
                            local_status,
                            current_slot,
                            &request.peer_id,
                            remote_status,
                            now,
                            &mut actions,
                        );
                        if relevant {
                            // Always reply with our own status when the peer
                            // is being kept.
                            self.rpc.send_response(
                                request.peer_id,
                                request.connection_id,
                                request.substream_id,
                                Response::Status(local_status),
                            );
                        }
                    },
                    RequestType::Goodbye(_reason) => {
                        // The handler's own shutdown sequence does the
                        // teardown.
                    },
                    RequestType::BlocksByRange(_) => {
                        // Out of core scope: left unhandled.
                    },
                    RequestType::Ping => {
                        // Out of core scope: left unhandled.
                    },
                    RequestType::MetaData => {
                        // Out of core scope: left unhandled.
                    },
                }
            },
            RpcEvent::ReceivedResponse(response) => {
                match response.response {
                    RpcResponse::Status(remote_status) => {
                        let _ = self.validate_status_message(
                            peer_db,
                            local_status,
                            current_slot,
                            &response.peer_id,
                            remote_status,
                            now,
                            &mut actions,
                        );
                    },
                    RpcResponse::BlocksByRange => {},
                    RpcResponse::Pong => {},
                    RpcResponse::MetaData => {},
                }
            },
        }

        actions
    }

}

impl BehaviourComposer<ApplicationRequestId> {
    /// A message from an upper layer to the network service.
    pub fn on_network_message(&mut self, message: NetworkMessage)
        ensures
            final(self).discovery == old(self).discovery,
            final(self).peer_manager == old(self).peer_manager,
            message matches NetworkMessage::SendRequest { peer_id, request, request_id } ==> final(self).rpc.events@ == old(self).rpc.events@.push(
                BehaviourAction::NotifyAnyHandler(
                    peer_id,
                    InstructionToHandler::Request(
                        RequestId::Application(request_id),
                        request.spec_as_request_type(),
                    ),
                ),
            ),
    {
        match message {
            NetworkMessage::SendRequest { peer_id, request, request_id } => {
                self.send_request(peer_id, request, request_id);
            },
        }
    }

    /// Send an application-level request to a peer.
    pub fn send_request(
        &mut self,
        peer_id: PeerId,
        request: Request,
        request_id: ApplicationRequestId,
    )
        ensures
            final(self).discovery == old(self).discovery,
            final(self).peer_manager == old(self).peer_manager,
            final(self).rpc.events@ == old(self).rpc.events@.push(
                BehaviourAction::NotifyAnyHandler(
                    peer_id,
                    InstructionToHandler::Request(
                        RequestId::Application(request_id),
                        request.spec_as_request_type(),
                    ),
                ),
            ),
    {
        self.rpc.send_request(peer_id, request, RequestId::Application(request_id));
    }
}

} // verus!
