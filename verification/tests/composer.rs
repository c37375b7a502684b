//! The behaviour composer's routing: STATUS validation, goodbye on
//! irrelevance, and the wiring between the sub-behaviours.

use ray::behaviour::{BehaviourComposer, ComposerAction, RequestId};
use ray::discovery::{Discovery, DiscoveryEvent};
use ray::network::{ApplicationRequestId, NetworkMessage, Request};
use ray::peer_db::{ConnectionStatus, PeerDB, SyncStatus};
use ray::peer_manager::{PeerManager, PeerManagerEvent};
use ray::rpc::behaviour::{Behaviour, BehaviourAction, InstructionToHandler};
use ray::rpc::handler::SubstreamId;
use ray::rpc::{BlocksByRangeRequest, ReceivedRequest, RequestType, Response, RpcEvent};
use ray::status::{ForkDigest, StatusMessage};
use ray::sync::SyncOperation;
use ray::types::{Epoch, IpAddress, PeerId, Root, Slot, SocketAddress, Transport};

fn composer() -> BehaviourComposer<ApplicationRequestId> {
    BehaviourComposer::new(
        Discovery::new(),
        PeerManager::new(50, 0),
        Behaviour::new(),
    )
}

fn local_status() -> StatusMessage {
    StatusMessage {
        fork_digest: ForkDigest::new(1, 1, 1, 1),
        finalized_root: Root::from_low_u64_le(10),
        finalized_epoch: Epoch::new(5),
        head_root: Root::from_low_u64_le(20),
        head_slot: Slot::new(100),
    }
}

fn addr() -> SocketAddress {
    SocketAddress { ip: IpAddress::V4(1), port: 1, transport: Transport::Tcp }
}

#[test]
fn found_peers_are_queued_and_discovery_continues() {
    let mut composer = composer();
    let db = PeerDB::new();
    let peers = vec![PeerId::new(vec![1]), PeerId::new(vec![2])];

    // The pool (0) is below the target (50): another round is requested.
    let actions =
        composer.handle_discovery_event(&db, DiscoveryEvent::FoundPeers(peers));
    assert_eq!(actions.len(), 1);
    assert!(matches!(actions[0], ComposerAction::StartDiscoveryQuery));
    assert!(composer.discovery.has_active_queries());
    assert_eq!(composer.peer_manager.peers_to_dial.len(), 2);
}

#[test]
fn outgoing_connection_triggers_a_status() {
    let mut composer = composer();
    let peer = PeerId::new(vec![3]);

    let actions = composer.handle_peer_manager_event(
        local_status(),
        PeerManagerEvent::PeerConnectedOutgoing(peer.clone()),
    );
    assert!(actions.is_empty());
    match composer.rpc.next_action() {
        Some(BehaviourAction::NotifyAnyHandler(
            p,
            InstructionToHandler::Status(RequestId::Internal, s),
        )) => {
            assert_eq!(p, peer);
            assert_eq!(s, local_status());
        }
        other => panic!("expected a status instruction, got {:?}", other),
    }

    // An incoming connection sends nothing: the dialer statuses first.
    let actions = composer.handle_peer_manager_event(
        local_status(),
        PeerManagerEvent::PeerConnectedIncoming(PeerId::new(vec![4])),
    );
    assert!(actions.is_empty());
    assert!(composer.rpc.next_action().is_none());
}

#[test]
fn need_more_peers_starts_a_query_only_when_idle() {
    let mut composer = composer();
    let actions =
        composer.handle_peer_manager_event(local_status(), PeerManagerEvent::NeedMorePeers);
    assert_eq!(actions.len(), 1);
    assert!(matches!(actions[0], ComposerAction::StartDiscoveryQuery));

    // A query is already running: no storm.
    let actions =
        composer.handle_peer_manager_event(local_status(), PeerManagerEvent::NeedMorePeers);
    assert!(actions.is_empty());
    assert_eq!(composer.discovery.active_queries, 1);
}

#[test]
fn disconnect_event_becomes_a_goodbye() {
    let mut composer = composer();
    let peer = PeerId::new(vec![5]);
    composer.handle_peer_manager_event(
        local_status(),
        PeerManagerEvent::DisconnectPeer(peer.clone(), ray::rpc::GoodbyeReason::Fault),
    );
    assert!(matches!(
        composer.rpc.next_action(),
        Some(BehaviourAction::NotifyAnyHandler(_, InstructionToHandler::Goodbye(_, _)))
    ));
}

/// Scenario: a relevant STATUS request marks the peer status'd, hands it to
/// sync, and is answered with our own status.
#[test]
fn relevant_status_request_is_answered_and_synced() {
    let mut composer = composer();
    let mut db = PeerDB::new();
    let peer = PeerId::new(vec![6]);
    db.add_peer(peer.clone(), addr());

    let remote = StatusMessage { head_slot: Slot::new(90), ..local_status() };
    let event = RpcEvent::ReceivedRequest(ReceivedRequest {
        peer_id: peer.clone(),
        connection_id: 7,
        substream_id: SubstreamId(3),
        request: RequestType::Status(remote),
    });

    let actions = composer.handle_rpc_event(&mut db, local_status(), Slot::new(100), event, 1000);

    assert_eq!(actions.len(), 1);
    match &actions[0] {
        ComposerAction::ToSync(SyncOperation::AddPeer(p, info)) => {
            assert_eq!(p, &peer);
            assert_eq!(info.head_slot, Slot::new(90));
        }
        other => panic!("expected a sync operation, got {:?}", other),
    }
    match composer.rpc.next_action() {
        Some(BehaviourAction::NotifyOneHandler(
            p,
            connection,
            InstructionToHandler::Response(sid, Response::Status(s)),
        )) => {
            assert_eq!(p, peer);
            assert_eq!(connection, 7);
            assert_eq!(sid, SubstreamId(3));
            assert_eq!(s, local_status());
        }
        other => panic!("expected the status reply, got {:?}", other),
    }
    // The peer's re-status timer is armed; no disconnect was queued.
    assert_eq!(composer.peer_manager.status_peers.len(), 1);
    assert!(composer.peer_manager.events.is_empty());
}

/// Scenario: a remote on another fork is told goodbye with reason
/// IrrelevantNetwork and never reaches the sync layer.
#[test]
fn fork_mismatch_goodbyes_the_peer() {
    let mut composer = composer();
    let mut db = PeerDB::new();
    let peer = PeerId::new(vec![7]);
    db.add_peer(peer.clone(), addr());

    let remote = StatusMessage {
        fork_digest: ForkDigest::new(2, 2, 2, 2),
        head_slot: Slot::new(90),
        ..local_status()
    };
    let event = RpcEvent::ReceivedRequest(ReceivedRequest {
        peer_id: peer.clone(),
        connection_id: 7,
        substream_id: SubstreamId(3),
        request: RequestType::Status(remote),
    });

    let actions = composer.handle_rpc_event(&mut db, local_status(), Slot::new(100), event, 1000);

    // No sync operation is ever issued for this peer, and no reply is sent.
    assert!(actions.is_empty());
    assert!(composer.rpc.next_action().is_none());

    let info = db.info_of(&peer).unwrap();
    assert_eq!(info.sync_status, SyncStatus::IrrelevantPeer);
    assert_eq!(info.connection_status, ConnectionStatus::Disconnecting);
    match composer.peer_manager.events.last() {
        Some(PeerManagerEvent::DisconnectPeer(p, reason)) => {
            assert_eq!(p, &peer);
            assert_eq!(*reason, ray::rpc::GoodbyeReason::IrrelevantNetwork);
        }
        other => panic!("expected a disconnect event, got {:?}", other),
    }
    // An irrelevant peer is never marked status'd.
    assert!(composer.peer_manager.status_peers.is_empty());
}

#[test]
fn goodbye_and_unhandled_requests_change_nothing() {
    let mut composer = composer();
    let mut db = PeerDB::new();
    let peer = PeerId::new(vec![8]);

    let goodbye = RpcEvent::ReceivedRequest(ReceivedRequest {
        peer_id: peer.clone(),
        connection_id: 1,
        substream_id: SubstreamId(0),
        request: RequestType::Goodbye(ray::rpc::GoodbyeReason::ClientShutdown),
    });
    let actions = composer.handle_rpc_event(&mut db, local_status(), Slot::new(100), goodbye, 0);
    assert!(actions.is_empty());
    assert!(composer.rpc.next_action().is_none());

    let ping = RpcEvent::ReceivedRequest(ReceivedRequest {
        peer_id: peer,
        connection_id: 1,
        substream_id: SubstreamId(1),
        request: RequestType::Ping,
    });
    let actions = composer.handle_rpc_event(&mut db, local_status(), Slot::new(100), ping, 0);
    assert!(actions.is_empty());
}

#[test]
fn network_messages_become_tagged_requests() {
    let mut composer = composer();
    let peer = PeerId::new(vec![9]);
    let request_id =
        ApplicationRequestId::Sync(ray::sync::SyncRequestId::RangeSync { id: 12 });
    composer.on_network_message(NetworkMessage::SendRequest {
        peer_id: peer.clone(),
        request: Request::BlocksByRange(BlocksByRangeRequest { start_slot: 1, count: 64 }),
        request_id,
    });

    match composer.rpc.next_action() {
        Some(BehaviourAction::NotifyAnyHandler(
            p,
            InstructionToHandler::Request(RequestId::Application(id), RequestType::BlocksByRange(r)),
        )) => {
            assert_eq!(p, peer);
            assert_eq!(id, request_id);
            assert_eq!(r.start_slot, 1);
            assert_eq!(r.count, 64);
        }
        other => panic!("expected the tagged request, got {:?}", other),
    }
}

#[test]
fn genesis_block_is_the_empty_block_over_the_state() {
    let state_root = Root::from_low_u64_le(99);
    let block = ray::beacon_chain::genesis_block(state_root, Slot::new(0));
    assert_eq!(block.slot, Slot::new(0));
    assert_eq!(block.state_root, state_root);
    assert_eq!(block.parent_root, Root::from_low_u64_le(0));
    assert_eq!(block.body_root, Root::from_low_u64_le(0));
}
