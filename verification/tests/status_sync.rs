//! STATUS relevance, sync classification, and the sync manager's scenarios.

use ray::peer_db::{PeerDB, SyncStatus};
use ray::status::{is_relevant, status_message, ForkDigest, StatusMessage};
use ray::sync::chain_collection::AddPeerOutcome;
use ray::sync::network_context::SyncNetworkContext;
use ray::sync::range_sync::{RangeSyncOutcome, RangeSyncType};
use ray::sync::{determine_sync_relevance, SyncInfo, SyncManager, SyncRelevance};
use ray::types::{Epoch, PeerId, Root, Slot, SocketAddress, IpAddress, Transport};

fn digest(n: u8) -> ForkDigest {
    ForkDigest::new(n, n, n, n)
}

fn root(n: u64) -> Root {
    Root::from_low_u64_le(n)
}

fn status(d: u8, fin_root: u64, fin_epoch: u64, head_root: u64, head_slot: u64) -> StatusMessage {
    StatusMessage {
        fork_digest: digest(d),
        finalized_root: root(fin_root),
        finalized_epoch: Epoch::new(fin_epoch),
        head_root: root(head_root),
        head_slot: Slot::new(head_slot),
    }
}

fn addr() -> SocketAddress {
    SocketAddress { ip: IpAddress::V4(0x7f000001), port: 9000, transport: Transport::Tcp }
}

#[test]
fn relevance_same_fork_and_older_head_is_relevant() {
    // Local status; the remote is identical but its head sits behind ours.
    let local = status(1, 10, 5, 20, 100);
    let remote = status(1, 10, 5, 20, 90);
    assert!(is_relevant(&local, &remote, Slot::new(100)));
}

#[test]
fn relevance_fork_digest_mismatch_is_irrelevant() {
    let local = status(1, 10, 5, 20, 100);
    let remote = status(2, 10, 5, 20, 90);
    assert!(!is_relevant(&local, &remote, Slot::new(100)));
    // A digest mismatch decides the outcome whatever the slots say.
    assert!(!is_relevant(&local, &remote, Slot::new(0)));
    assert!(!is_relevant(&local, &remote, Slot::new(u64::MAX)));
}

#[test]
fn relevance_head_from_the_future_is_irrelevant() {
    let local = status(1, 10, 5, 20, 100);
    let remote = status(1, 10, 5, 20, 101);
    assert!(!is_relevant(&local, &remote, Slot::new(100)));
    // The same head is fine once our clock has caught up.
    assert!(is_relevant(&local, &remote, Slot::new(101)));
}

#[test]
fn status_message_aliases_genesis_root_to_zero() {
    let built = status_message(
        digest(1),
        root(77),
        Epoch::new(0),
        root(5),
        Slot::new(9),
        Epoch::new(0),
    );
    assert_eq!(built.finalized_root, Root::from_low_u64_le(0));
    assert_eq!(built.finalized_epoch, Epoch::new(0));

    let later = status_message(
        digest(1),
        root(77),
        Epoch::new(3),
        root(5),
        Slot::new(9),
        Epoch::new(0),
    );
    assert_eq!(later.finalized_root, root(77));
}

fn sync_info(fin_root: u64, fin_epoch: u64, head_root: u64, head_slot: u64) -> SyncInfo {
    SyncInfo {
        finalized_root: root(fin_root),
        finalized_epoch: Epoch::new(fin_epoch),
        head_root: root(head_root),
        head_slot: Slot::new(head_slot),
    }
}

#[test]
fn classification_covers_all_three_cases() {
    let local = sync_info(1, 5, 2, 100);
    assert_eq!(
        determine_sync_relevance(&local, &sync_info(1, 4, 2, 100)),
        SyncRelevance::Behind
    );
    assert_eq!(
        determine_sync_relevance(&local, &sync_info(1, 5, 2, 100)),
        SyncRelevance::FullySynced
    );
    assert_eq!(
        determine_sync_relevance(&local, &sync_info(1, 6, 2, 100)),
        SyncRelevance::Advanced
    );
}

#[test]
fn range_sync_type_follows_finalized_root() {
    let local = sync_info(1, 5, 2, 100);
    // A different, unknown finalized root warrants a finalized sync.
    assert_eq!(
        RangeSyncType::new(&local, &sync_info(9, 10, 2, 500), false),
        RangeSyncType::Finalized
    );
    // A known root, or the same root, warrants a head sync.
    assert_eq!(
        RangeSyncType::new(&local, &sync_info(9, 10, 2, 500), true),
        RangeSyncType::Head
    );
    assert_eq!(
        RangeSyncType::new(&local, &sync_info(1, 10, 2, 500), false),
        RangeSyncType::Head
    );
}

/// Scenario: identical fork digests and finalized checkpoints, remote head
/// behind ours: relevant, and classified fully synced.
#[test]
fn scenario_equal_checkpoints_fully_synced() {
    let local = status(1, 100, 5, 200, 100);
    let remote = status(1, 100, 5, 200, 90);
    assert!(is_relevant(&local, &remote, Slot::new(100)));

    let mut manager = SyncManager::new();
    let mut peer_db = PeerDB::new();
    let mut network = SyncNetworkContext::new();
    let peer = PeerId::new(vec![1, 2, 3]);
    peer_db.add_peer(peer.clone(), addr());

    let local_info = SyncInfo::from(local);
    let remote_info = SyncInfo::from(remote);
    manager.add_peer(&mut peer_db, &mut network, peer.clone(), &local_info, &remote_info, false);

    assert_eq!(peer_db.info_of(&peer).unwrap().sync_status, SyncStatus::Synced);
    // A fully synced peer never reaches the range sync.
    assert_eq!(manager.range_sync.chains.finalized_chains.len(), 0);
    assert_eq!(network.outbox.len(), 0);
}

/// Scenario: an advanced peer with an unknown finalized root: classified
/// advanced, a finalized sync starts, and a new chain is created at our
/// finalized epoch targeting the remote head slot.
#[test]
fn scenario_advanced_peer_starts_finalized_chain() {
    let mut manager = SyncManager::new();
    let mut peer_db = PeerDB::new();
    let mut network = SyncNetworkContext::new();
    let peer = PeerId::new(vec![7]);
    peer_db.add_peer(peer.clone(), addr());

    let local_info = sync_info(1, 5, 2, 300);
    let remote_info = sync_info(9, 10, 8, 500);
    manager.add_peer(&mut peer_db, &mut network, peer.clone(), &local_info, &remote_info, false);

    assert_eq!(peer_db.info_of(&peer).unwrap().sync_status, SyncStatus::Advanced);
    assert_eq!(manager.range_sync.chains.finalized_chains.len(), 1);
    let (chain_id, chain) = &manager.range_sync.chains.finalized_chains[0];
    assert_eq!(*chain_id, ray::sync::syncing_chain::id(&root(9), &Slot::new(500)));
    assert_eq!(chain.target_head_root, root(9));
    assert_eq!(chain.target_head_slot, Slot::new(500));
    // The chain started at our finalized epoch (5) and is now syncing, so
    // the new peer was handed the first batch window: slots 161..225.
    assert_eq!(chain.start_epoch, Epoch::new(5));
    assert_eq!(network.outbox.len(), 1);
    match &network.outbox[0] {
        ray::network::NetworkMessage::SendRequest { peer_id, request, request_id } => {
            assert_eq!(peer_id, &peer);
            match request {
                ray::network::Request::BlocksByRange(r) => {
                    assert_eq!(r.start_slot, 5 * 32 + 1);
                    assert_eq!(r.count, 64);
                }
            }
            match request_id {
                ray::network::ApplicationRequestId::Sync(
                    ray::sync::SyncRequestId::RangeSync { id },
                ) => assert_eq!(*id, 0),
                other => panic!("unexpected request id {:?}", other),
            }
        }
    }
}

/// Scenario: two peers reporting the same target merge into one chain.
#[test]
fn scenario_two_peers_one_chain() {
    let mut manager = SyncManager::new();
    let mut peer_db = PeerDB::new();
    let mut network = SyncNetworkContext::new();
    let peer_a = PeerId::new(vec![1]);
    let peer_b = PeerId::new(vec![2]);
    peer_db.add_peer(peer_a.clone(), addr());
    peer_db.add_peer(peer_b.clone(), addr());

    let local_info = sync_info(1, 2, 2, 300);
    let remote_info = sync_info(77, 10, 8, 500);
    manager.add_peer(&mut peer_db, &mut network, peer_a, &local_info, &remote_info, false);
    manager.add_peer(&mut peer_db, &mut network, peer_b, &local_info, &remote_info, false);

    assert_eq!(manager.range_sync.chains.finalized_chains.len(), 1);
    assert_eq!(manager.range_sync.chains.finalized_chains[0].1.available_peers(), 2);
}

#[test]
fn range_sync_head_is_reported_unsupported() {
    let mut range_sync = ray::sync::range_sync::RangeSync::new();
    let mut network = SyncNetworkContext::new();
    let local_info = sync_info(1, 5, 2, 300);
    // Same finalized root: head sync, which is typed as unsupported.
    let remote_info = sync_info(1, 10, 8, 500);
    let outcome = range_sync.add_peer(
        &mut network,
        PeerId::new(vec![9]),
        &local_info,
        &remote_info,
        false,
    );
    assert!(matches!(outcome, RangeSyncOutcome::HeadUnsupported));
    assert_eq!(range_sync.chains.finalized_chains.len(), 0);
}

#[test]
fn chain_id_collision_reports_target_mismatch() {
    let mut chains = ray::sync::chain_collection::ChainCollection::new();
    let mut network = SyncNetworkContext::new();
    let outcome = chains.add_peer_or_create_chain(
        &mut network,
        PeerId::new(vec![1]),
        Epoch::new(1),
        root(10),
        Slot::new(100),
    );
    assert!(matches!(outcome, AddPeerOutcome::CreatedNewChain));
    // The same target again joins the chain.
    let outcome = chains.add_peer_or_create_chain(
        &mut network,
        PeerId::new(vec![2]),
        Epoch::new(1),
        root(10),
        Slot::new(100),
    );
    assert!(matches!(outcome, AddPeerOutcome::AddedToExisting));
    assert_eq!(chains.finalized_chains.len(), 1);
}
