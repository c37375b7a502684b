//! The peer store and the peer manager: dial gating, heartbeat, re-status
//! timers, and connection lifecycle.

use ray::peer_db::{ConnectionStatus, PeerDB, SyncStatus};
use ray::peer_manager::{
    ConnectedPoint, PeerManager, PeerManagerAction, PeerManagerEvent, HEARTBEAT_INTERVAL,
    STATUS_INTERVAL,
};
use ray::rpc::GoodbyeReason;
use ray::types::{IpAddress, PeerId, SocketAddress, Transport};

fn addr(port: u16) -> SocketAddress {
    SocketAddress { ip: IpAddress::V4(0x0a000001), port, transport: Transport::Tcp }
}

#[test]
fn peer_db_records_and_counts() {
    let mut db = PeerDB::new();
    let alice = PeerId::new(vec![1]);
    let bob = PeerId::new(vec![2]);

    db.add_peer(alice.clone(), addr(1));
    db.add_peer(bob.clone(), addr(2));
    assert_eq!(db.peer_count(), 2);
    assert_eq!(db.active_peer_count(), 2);

    let info = db.info_of(&alice).unwrap();
    assert_eq!(info.listening_address, addr(1));
    assert_eq!(info.sync_status, SyncStatus::Unknown);
    assert_eq!(info.connection_status, ConnectionStatus::Connected);

    db.update_sync_status(&alice, SyncStatus::Advanced);
    db.update_connection_status(&bob, ConnectionStatus::Disconnected { since: 17 });
    assert_eq!(db.info_of(&alice).unwrap().sync_status, SyncStatus::Advanced);
    assert_eq!(
        db.info_of(&bob).unwrap().connection_status,
        ConnectionStatus::Disconnected { since: 17 }
    );
    // Records are never deleted; only one of the two is still active.
    assert_eq!(db.peer_count(), 2);
    assert_eq!(db.active_peer_count(), 1);

    // Updating an unknown peer changes nothing.
    db.update_sync_status(&PeerId::new(vec![9]), SyncStatus::Behind);
    assert_eq!(db.peer_count(), 2);
}

/// Scenario: the pool is far below the target: one due heartbeat emits
/// exactly one NeedMorePeers, not one per missing peer.
#[test]
fn heartbeat_emits_need_more_peers_once() {
    let mut db = PeerDB::new();
    for i in 0..12u8 {
        db.add_peer(PeerId::new(vec![i]), addr(i as u16));
    }
    let mut manager = PeerManager::new(50, 1000);
    assert!(manager.need_more_peers(&db));

    let first = manager.tick(&db, 1000);
    assert!(matches!(
        first,
        Some(PeerManagerAction::GenerateEvent(PeerManagerEvent::NeedMorePeers))
    ));
    // The heartbeat was consumed: the next step, still before the next
    // interval, emits nothing more.
    let second = manager.tick(&db, 1001);
    assert!(second.is_none());
    // The next heartbeat fires a full interval later.
    let third = manager.tick(&db, 1000 + HEARTBEAT_INTERVAL);
    assert!(matches!(
        third,
        Some(PeerManagerAction::GenerateEvent(PeerManagerEvent::NeedMorePeers))
    ));
}

/// Scenario: enqueueing a dial many times yields one dial attempt; the next
/// attempt only becomes possible after the dial concludes.
#[test]
fn repeated_dial_enqueue_yields_one_attempt() {
    let db = PeerDB::new();
    // A heartbeat at time 0 would fire; start past it with a full pool
    // check disabled by target 0.
    let mut manager = PeerManager::new(0, 0);
    let peer = PeerId::new(vec![42]);
    manager.dial_peer(peer.clone());
    manager.dial_peer(peer.clone());
    manager.dial_peer(peer.clone());

    let first = manager.tick(&db, 1);
    match first {
        Some(PeerManagerAction::Dial(p)) => assert_eq!(p, peer),
        other => panic!("expected a dial, got {:?}", other),
    }
    // The two remaining queue entries are dropped by the dial condition:
    // an attempt is already in flight.
    assert!(manager.tick(&db, 2).is_none());
    assert!(manager.tick(&db, 3).is_none());
    assert_eq!(manager.peers_to_dial.len(), 0);

    // The dial failed: the peer may be dialed again.
    manager.on_dial_failure(&peer);
    manager.dial_peer(peer.clone());
    let again = manager.tick(&db, 4);
    assert!(matches!(again, Some(PeerManagerAction::Dial(_))));
}

#[test]
fn connected_peers_are_not_dialed() {
    let mut db = PeerDB::new();
    let mut manager = PeerManager::new(0, 0);
    let peer = PeerId::new(vec![5]);

    manager.on_connection_established(
        &mut db,
        peer.clone(),
        ConnectedPoint::Listener { send_back_addr: addr(4) },
    );
    // The connected event flows out first.
    let event = manager.tick(&db, 1);
    assert!(matches!(
        event,
        Some(PeerManagerAction::GenerateEvent(PeerManagerEvent::PeerConnectedIncoming(_)))
    ));

    manager.dial_peer(peer.clone());
    assert!(manager.tick(&db, 2).is_none());

    // Once the peer is disconnected it may be dialed again.
    manager.on_connection_closed(&mut db, &peer, 0, 3);
    manager.dial_peer(peer.clone());
    assert!(matches!(manager.tick(&db, 4), Some(PeerManagerAction::Dial(_))));
}

/// Scenario: a STATUS exchange at time T suppresses the re-status until
/// T + STATUS_INTERVAL.
#[test]
fn re_status_suppressed_for_a_full_interval() {
    let db = PeerDB::new();
    let mut manager = PeerManager::new(0, 0);
    let peer = PeerId::new(vec![8]);

    manager.statusd_peer(peer.clone(), 1000);

    // Any step before the interval has passed emits nothing for the peer.
    assert!(manager.tick(&db, 1000 + STATUS_INTERVAL - 1).is_none());
    assert_eq!(manager.events.len(), 0);

    // At expiry the SendStatus is queued, then emitted.
    assert!(manager.tick(&db, 1000 + STATUS_INTERVAL).is_none());
    let event = manager.tick(&db, 1000 + STATUS_INTERVAL + 1);
    match event {
        Some(PeerManagerAction::GenerateEvent(PeerManagerEvent::SendStatus(p))) => {
            assert_eq!(p, peer)
        }
        other => panic!("expected SendStatus, got {:?}", other),
    }

    // The timer rearmed at its expiry: nothing more for another interval.
    assert!(manager.tick(&db, 1000 + 2 * STATUS_INTERVAL - 2).is_none());
}

#[test]
fn statusd_peer_resets_the_timer() {
    let db = PeerDB::new();
    let mut manager = PeerManager::new(0, 0);
    let peer = PeerId::new(vec![8]);

    manager.statusd_peer(peer.clone(), 1000);
    // A second exchange before expiry pushes the timer out.
    manager.statusd_peer(peer.clone(), 1200);
    assert!(manager.tick(&db, 1000 + STATUS_INTERVAL).is_none());
    assert_eq!(manager.events.len(), 0);
    assert!(manager.tick(&db, 1200 + STATUS_INTERVAL).is_none());
    assert!(matches!(
        manager.tick(&db, 1200 + STATUS_INTERVAL + 1),
        Some(PeerManagerAction::GenerateEvent(PeerManagerEvent::SendStatus(_)))
    ));
}

#[test]
fn goodbye_marks_irrelevant_peers() {
    let mut db = PeerDB::new();
    let mut manager = PeerManager::new(0, 0);
    let peer = PeerId::new(vec![3]);
    db.add_peer(peer.clone(), addr(3));

    manager.goodbye(&mut db, &peer, GoodbyeReason::IrrelevantNetwork);
    let info = db.info_of(&peer).unwrap();
    assert_eq!(info.sync_status, SyncStatus::IrrelevantPeer);
    assert_eq!(info.connection_status, ConnectionStatus::Disconnecting);
    match manager.events.last() {
        Some(PeerManagerEvent::DisconnectPeer(p, reason)) => {
            assert_eq!(p, &peer);
            assert_eq!(*reason, GoodbyeReason::IrrelevantNetwork);
        }
        other => panic!("expected DisconnectPeer, got {:?}", other),
    }

    // A goodbye for any other reason keeps the sync status.
    let other = PeerId::new(vec![4]);
    db.add_peer(other.clone(), addr(4));
    manager.goodbye(&mut db, &other, GoodbyeReason::TooManyPeers);
    assert_eq!(db.info_of(&other).unwrap().sync_status, SyncStatus::Unknown);
    assert_eq!(
        db.info_of(&other).unwrap().connection_status,
        ConnectionStatus::Disconnecting
    );
}

#[test]
fn connection_closed_only_counts_when_last() {
    let mut db = PeerDB::new();
    let mut manager = PeerManager::new(0, 0);
    let peer = PeerId::new(vec![6]);
    db.add_peer(peer.clone(), addr(6));
    manager.statusd_peer(peer.clone(), 10);

    // Other connections to the peer remain: nothing changes.
    manager.on_connection_closed(&mut db, &peer, 1, 20);
    assert_eq!(db.info_of(&peer).unwrap().connection_status, ConnectionStatus::Connected);
    assert_eq!(manager.status_peers.len(), 1);

    // The last connection went: the re-status timer is dropped and the
    // store records the disconnection time.
    manager.on_connection_closed(&mut db, &peer, 0, 21);
    assert_eq!(
        db.info_of(&peer).unwrap().connection_status,
        ConnectionStatus::Disconnected { since: 21 }
    );
    assert_eq!(manager.status_peers.len(), 0);
}
