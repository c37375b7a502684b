//! Long-range (finalized) sync: decides what kind of range sync a peer's
//! report warrants and routes the peer into the chain collection.

use vstd::prelude::*;

use crate::sync::chain_collection::{AddPeerOutcome, ChainCollection, RangeSyncState};
use crate::sync::syncing_chain::SyncingState;
use crate::sync::network_context::SyncNetworkContext;
use crate::sync::SyncInfo;
use crate::types::PeerId;

verus! {

/// The type of range sync that should be done relative to our current state.
#[derive(Clone, Copy, Debug, PartialEq, Eq, Structural)]
pub enum RangeSyncType {
    /// A finalized chain sync should be started with this peer.
    Finalized,
    /// A head chain sync should be started with this peer.
    Head,
}

/// A finalized sync is chosen when the remote's finalized root differs from
/// ours and that root is not already known locally; everything else is a
/// head sync.
pub open spec fn spec_range_sync_type(
    local_info: SyncInfo,
    remote_info: SyncInfo,
    is_block_known: bool,
) -> RangeSyncType {
    if remote_info.finalized_root != local_info.finalized_root && !is_block_known {
        RangeSyncType::Finalized
    } else {
        RangeSyncType::Head
    }
}

impl RangeSyncType {
    /// Decide the sync type for a peer. `is_block_known` says whether the
    /// remote's finalized root is already known to our chain view.
    pub fn new(local_sync_info: &SyncInfo, remote_sync_info: &SyncInfo, is_block_known: bool) -> (r:
        RangeSyncType)
        ensures
            r == spec_range_sync_type(*local_sync_info, *remote_sync_info, is_block_known),
    {
        // Check for finalized chain sync: the remote has a finalized
        // checkpoint we have not already incorporated.
        if remote_sync_info.finalized_root != local_sync_info.finalized_root && !is_block_known {
            RangeSyncType::Finalized
        } else {
            RangeSyncType::Head
        }
    }
}

/// What became of a peer handed to the range sync.
#[derive(Clone, Copy, Debug, PartialEq, Eq, Structural)]
pub enum RangeSyncOutcome {
    /// The peer warranted a finalized sync and was routed into the chain
    /// collection, with the given result.
    Finalized(AddPeerOutcome),
    /// The peer warranted a head sync, which this node does not support.
    HeadUnsupported,
}

/// The collection of chains that need to be downloaded, driven by peers.
pub struct RangeSync {
    /// A collection of chains that need to be downloaded.
    pub chains: ChainCollection,
}

impl RangeSync {
    pub fn new() -> (r: RangeSync)
        ensures
            r.chains.state == RangeSyncState::Idle,
            r.chains.finalized_chains@.len() == 0,
            r.chains.wf(),
    {
        RangeSync { chains: ChainCollection::new() }
    }

    /// Route an advanced peer: a finalized sync adds it to the chain with
    /// its reported target (creating the chain at our finalized epoch if
    /// needed); a head sync is unsupported and reported as such. Either way
    /// the collection then re-picks the actively syncing chain.
    pub fn add_peer(
        &mut self,
        network: &mut SyncNetworkContext,
        peer_id: PeerId,
        local_sync_info: &SyncInfo,
        remote_sync_info: &SyncInfo,
        is_block_known: bool,
    ) -> (outcome: RangeSyncOutcome)
        requires
            old(self).chains.wf(),
            old(network).request_id + 2 * ChainCollection::spec_total_peers(
                old(self).chains.finalized_chains@,
            ) + 2 <= u32::MAX,
        ensures
            final(self).chains.wf(),
            match outcome {
                RangeSyncOutcome::Finalized(added) => {
                    &&& spec_range_sync_type(*local_sync_info, *remote_sync_info, is_block_known)
                        == RangeSyncType::Finalized
                    &&& (added == AddPeerOutcome::AddedToExisting || added
                        == AddPeerOutcome::CreatedNewChain) ==> exists|i: int|
                        {
                            &&& 0 <= i < final(self).chains.finalized_chains@.len()
                            &&& (#[trigger] final(self).chains.finalized_chains@[i].1).spec_has_peer(
                                peer_id@,
                            )
                            &&& final(self).chains.finalized_chains@[i].1.target_head_root
                                == remote_sync_info.finalized_root
                            &&& final(self).chains.finalized_chains@[i].1.target_head_slot
                                == remote_sync_info.head_slot
                        }
                    &&& added == AddPeerOutcome::TargetMismatch ==> exists|i: int|
                        #![auto]
                        {
                            &&& 0 <= i < old(self).chains.finalized_chains@.len()
                            &&& old(self).chains.finalized_chains@[i].0 == crate::sync::syncing_chain::spec_chain_id(
                                remote_sync_info.finalized_root,
                                remote_sync_info.head_slot,
                            )
                            &&& (old(self).chains.finalized_chains@[i].1.target_head_root
                                != remote_sync_info.finalized_root || old(
                                self,
                            ).chains.finalized_chains@[i].1.target_head_slot
                                != remote_sync_info.head_slot)
                        }
                    &&& added == AddPeerOutcome::CreatedNewChain ==> final(self).chains.finalized_chains@.len() == old(self).chains.finalized_chains@.len()
                        + 1
                    &&& added != AddPeerOutcome::CreatedNewChain ==> final(self).chains.finalized_chains@.len() == old(self).chains.finalized_chains@.len()
                },
                RangeSyncOutcome::HeadUnsupported => {
                    &&& spec_range_sync_type(*local_sync_info, *remote_sync_info, is_block_known)
                        == RangeSyncType::Head
                    &&& final(self).chains.finalized_chains@.len() == old(
                        self,
                    ).chains.finalized_chains@.len()
                },
            },
            final(self).chains.finalized_chains@.len() > 0 ==> final(self).chains.state is Syncing,
            // With any chain present, the one picked for syncing has no
            // peer left idle unless its windows have run out.
            final(self).chains.finalized_chains@.len() > 0 ==> exists|i: int|
                {
                    &&& 0 <= i < final(self).chains.finalized_chains@.len()
                    &&& (#[trigger] final(self).chains.finalized_chains@[i].1).state
                        == SyncingState::Syncing
                    &&& forall|j: int|
                        0 <= j < final(self).chains.finalized_chains@[i].1.peers@.len() ==> ((
                        #[trigger] final(self).chains.finalized_chains@[i].1.peers@[j].1)@.len()
                            > 0 || !final(self).chains.finalized_chains@[i].1.spec_can_emit())
                },
    {
        proof {
            ChainCollection::lemma_peers_le_total(self.chains.finalized_chains@);
            assert(self.chains.spec_request_headroom(*network, 1));
        }

        // Determine which kind of sync to perform and set up the chains.
        let sync_type = RangeSyncType::new(local_sync_info, remote_sync_info, is_block_known);

        let ghost peer_view = peer_id@;
        let outcome = match sync_type {
            RangeSyncType::Finalized => {
                let added = self.chains.add_peer_or_create_chain(
                    network,
                    peer_id,
                    local_sync_info.finalized_epoch,
                    remote_sync_info.finalized_root,
                    remote_sync_info.head_slot,
                );
                proof {
                    assert(self.chains.spec_request_headroom(*network, 0)) by {
                        ChainCollection::lemma_peers_le_total(old(self).chains.finalized_chains@);
                        if added == AddPeerOutcome::CreatedNewChain {
                            assert(forall|i: int|
                                0 <= i < old(self).chains.finalized_chains@.len() ==> (
                                #[trigger] self.chains.finalized_chains@[i]) == old(
                                    self,
                                ).chains.finalized_chains@[i]);
                        }
                    }
                    if added == AddPeerOutcome::CreatedNewChain {
                        assert(self.chains.finalized_chains@.last().1.peers@[0].0@ == peer_view);
                        assert(self.chains.finalized_chains@.last().1.spec_has_peer(peer_view));
                    }
                }
                RangeSyncOutcome::Finalized(added)
            },
            RangeSyncType::Head => {
                proof {
                    assert(self.chains.spec_request_headroom(*network, 0));
                }
                // Head sync is not supported.
                RangeSyncOutcome::HeadUnsupported
            },
        };
        let ghost mid_chains = self.chains.finalized_chains@;

        self.chains.update(network, local_sync_info.finalized_epoch);

        proof {
            let target_root = remote_sync_info.finalized_root;
            let target_slot = remote_sync_info.head_slot;
            if exists|i: int|
                {
                    &&& 0 <= i < mid_chains.len()
                    &&& (#[trigger] mid_chains[i].1).spec_has_peer(peer_view)
                    &&& mid_chains[i].1.target_head_root == target_root
                    &&& mid_chains[i].1.target_head_slot == target_slot
                } {
                let i = choose|i: int|
                    {
                        &&& 0 <= i < mid_chains.len()
                        &&& (#[trigger] mid_chains[i].1).spec_has_peer(peer_view)
                        &&& mid_chains[i].1.target_head_root == target_root
                        &&& mid_chains[i].1.target_head_slot == target_slot
                    };
                assert(self.chains.finalized_chains@[i].1.spec_has_peer(peer_view));
                assert(self.chains.finalized_chains@[i].1.target_head_root == target_root);
                assert(self.chains.finalized_chains@[i].1.target_head_slot == target_slot);
            }
        }
        outcome
    }
}

} // verus!
