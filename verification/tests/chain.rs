//! Chain id derivation and the syncing chain's batch bookkeeping.

use ray::sync::network_context::SyncNetworkContext;
use ray::sync::syncing_chain::{id, BatchInfo, SyncingChain, SyncingState, EPOCHS_PER_BATCH};
use ray::types::{Epoch, PeerId, Root, Slot};

fn root(n: u64) -> Root {
    Root::from_low_u64_le(n)
}

#[test]
fn chain_id_is_deterministic() {
    let a = id(&root(42), &Slot::new(500));
    let b = id(&root(42), &Slot::new(500));
    assert_eq!(a, b);
}

#[test]
fn chain_id_separates_common_targets() {
    // Different roots or slots give different ids for these values.
    assert_ne!(id(&root(42), &Slot::new(500)), id(&root(43), &Slot::new(500)));
    assert_ne!(id(&root(42), &Slot::new(500)), id(&root(42), &Slot::new(501)));
}

#[test]
fn batch_info_covers_two_epochs_from_the_slot_after() {
    let info = BatchInfo::new(&Epoch::new(5));
    assert_eq!(info.start_slot, Slot::new(5 * 32 + 1));
    assert_eq!(info.end_slot, Slot::new(5 * 32 + 1 + 64));

    let request = info.to_blocks_by_range_request();
    assert_eq!(request.start_slot, 161);
    assert_eq!(request.count, 64);
}

#[test]
fn next_batch_windows_increase_by_epochs_per_batch() {
    let mut chain = SyncingChain::new(
        Epoch::new(0),
        Slot::new(200),
        root(1),
        PeerId::new(vec![1]),
    );
    // Windows are handed out at 0, 2, 4, ... while they start below the
    // target head slot (200 slots = 6.25 epochs).
    let mut handed: Vec<u64> = Vec::new();
    while let Some(epoch) = chain.next_batch() {
        handed.push(epoch.0);
        assert!(handed.len() <= 10, "too many windows");
    }
    assert_eq!(handed, vec![0, 2, 4, 6]);
    // Each window is EPOCHS_PER_BATCH beyond the previous one: none repeat.
    for pair in handed.windows(2) {
        assert_eq!(pair[1], pair[0] + EPOCHS_PER_BATCH);
    }
}

#[test]
fn start_syncing_advances_monotonically() {
    let mut chain = SyncingChain::new(
        Epoch::new(3),
        Slot::new(1000),
        root(1),
        PeerId::new(vec![1]),
    );
    let mut network = SyncNetworkContext::new();

    chain.start_syncing(&mut network, Epoch::new(7));
    assert_eq!(chain.state, SyncingState::Syncing);
    assert_eq!(chain.start_epoch, Epoch::new(7));

    // A lower local finalized epoch never regresses the start.
    chain.advance_chain(Epoch::new(4));
    assert_eq!(chain.start_epoch, Epoch::new(7));
    chain.advance_chain(Epoch::new(9));
    assert_eq!(chain.start_epoch, Epoch::new(9));
}

#[test]
fn request_batches_assigns_one_window_per_idle_peer() {
    let mut chain = SyncingChain::new(
        Epoch::new(0),
        Slot::new(1000),
        root(1),
        PeerId::new(vec![1]),
    );
    let mut network = SyncNetworkContext::new();
    chain.add_peer(&mut network, PeerId::new(vec![2]));

    // The chain is stopped, so nothing was requested yet.
    assert_eq!(network.outbox.len(), 0);

    chain.start_syncing(&mut network, Epoch::new(0));
    // Both peers were idle: each got one window.
    assert_eq!(network.outbox.len(), 2);
    assert_eq!(chain.peers.len(), 2);
    assert_eq!(chain.peers[0].1.len(), 1);
    assert_eq!(chain.peers[1].1.len(), 1);
    // Their windows differ.
    assert_ne!(chain.peers[0].1[0], chain.peers[1].1[0]);
}

#[test]
fn busy_peer_readds_quietly() {
    let mut chain = SyncingChain::new(
        Epoch::new(0),
        Slot::new(1000),
        root(1),
        PeerId::new(vec![1]),
    );
    let mut network = SyncNetworkContext::new();
    chain.start_syncing(&mut network, Epoch::new(0));
    let sent = network.outbox.len();
    assert_eq!(chain.peers[0].1.len(), 1);

    // Re-adding a peer that already holds a window changes nothing.
    chain.add_peer(&mut network, PeerId::new(vec![1]));
    assert_eq!(network.outbox.len(), sent);
    assert_eq!(chain.peers.len(), 1);
    assert_eq!(chain.peers[0].1.len(), 1);
}

#[test]
fn network_context_ids_strictly_increase() {
    let mut network = SyncNetworkContext::new();
    let peer = PeerId::new(vec![1]);
    let first = network.blocks_by_range_request(
        &peer,
        ray::rpc::BlocksByRangeRequest { start_slot: 1, count: 64 },
    );
    let second = network.blocks_by_range_request(
        &peer,
        ray::rpc::BlocksByRangeRequest { start_slot: 65, count: 64 },
    );
    assert_eq!(first, 0);
    assert_eq!(second, 1);
    assert_eq!(network.outbox.len(), 2);

    let drained = network.drain_outbox();
    assert_eq!(drained.len(), 2);
    assert_eq!(network.outbox.len(), 0);
}

#[test]
fn collection_picks_the_chain_with_most_peers() {
    let mut chains = ray::sync::chain_collection::ChainCollection::new();
    let mut network = SyncNetworkContext::new();

    chains.add_peer_or_create_chain(
        &mut network,
        PeerId::new(vec![1]),
        Epoch::new(0),
        root(10),
        Slot::new(100),
    );
    chains.add_peer_or_create_chain(
        &mut network,
        PeerId::new(vec![2]),
        Epoch::new(0),
        root(20),
        Slot::new(200),
    );
    chains.add_peer_or_create_chain(
        &mut network,
        PeerId::new(vec![3]),
        Epoch::new(0),
        root(20),
        Slot::new(200),
    );

    chains.update(&mut network, Epoch::new(0));
    let busiest = id(&root(20), &Slot::new(200));
    assert_eq!(
        chains.state,
        ray::sync::chain_collection::RangeSyncState::Syncing(busiest)
    );
}
