//! Sync coordination: classifying peers against our own chain view and
//! driving the finalized range sync.

use vstd::prelude::*;

pub mod chain_collection;
pub mod network_context;
pub mod range_sync;
pub mod syncing_chain;

use crate::peer_db::SyncStatus;
use crate::status::StatusMessage;
use crate::types::{Epoch, Root, Slot};

verus! {

/// The correlation id the sync layer attaches to its outbound requests.
#[derive(Debug, Clone, Copy, PartialEq, Eq, Structural)]
pub enum SyncRequestId {
    RangeSync { id: u32 },
}

/// A message that can be sent to the sync manager.
#[derive(Debug)]
pub enum SyncOperation {
    /// A useful peer has been discovered.
    AddPeer(crate::types::PeerId, SyncInfo),
}

/// What one side knows of its own chain: the latest finalized checkpoint and
/// the current head block.
#[derive(Debug, Clone, Copy, PartialEq, Eq, Structural)]
pub struct SyncInfo {
    /// Latest finalized root.
    pub finalized_root: Root,
    /// Latest finalized epoch.
    pub finalized_epoch: Epoch,
    /// The latest block root.
    pub head_root: Root,
    /// The slot associated with the latest block root.
    pub head_slot: Slot,
}

impl SyncInfo {
    pub open spec fn spec_from_status(status: StatusMessage) -> SyncInfo {
        SyncInfo {
            finalized_root: status.finalized_root,
            finalized_epoch: status.finalized_epoch,
            head_root: status.head_root,
            head_slot: status.head_slot,
        }
    }
}

impl From<StatusMessage> for SyncInfo {
    fn from(status: StatusMessage) -> (info: SyncInfo) {
        SyncInfo {
            finalized_root: status.finalized_root,
            finalized_epoch: status.finalized_epoch,
            head_root: status.head_root,
            head_slot: status.head_slot,
        }
    }
}

impl vstd::std_specs::convert::FromSpecImpl<StatusMessage> for SyncInfo {
    open spec fn obeys_from_spec() -> bool {
        true
    }

    open spec fn from_spec(status: StatusMessage) -> SyncInfo {
        SyncInfo::spec_from_status(status)
    }
}

/// The type of a peer relative to our current state.
#[derive(Debug, Clone, Copy, PartialEq, Eq, Structural)]
pub enum SyncRelevance {
    /// On our chain and fully synced with respect to it.
    FullySynced,
    /// Has greater knowledge of the chain than us; warrants a full sync.
    Advanced,
    /// Behind in the sync and not useful for downloading blocks.
    Behind,
}

impl SyncRelevance {
    pub open spec fn spec_as_sync_status(self) -> SyncStatus {
        match self {
            SyncRelevance::FullySynced => SyncStatus::Synced,
            SyncRelevance::Advanced => SyncStatus::Advanced,
            SyncRelevance::Behind => SyncStatus::Behind,
        }
    }
}

impl From<SyncRelevance> for SyncStatus {
    fn from(relevance: SyncRelevance) -> (status: SyncStatus) {
        match relevance {
            SyncRelevance::FullySynced => SyncStatus::Synced,
            SyncRelevance::Advanced => SyncStatus::Advanced,
            SyncRelevance::Behind => SyncStatus::Behind,
        }
    }
}

impl vstd::std_specs::convert::FromSpecImpl<SyncRelevance> for SyncStatus {
    open spec fn obeys_from_spec() -> bool {
        true
    }

    open spec fn from_spec(relevance: SyncRelevance) -> SyncStatus {
        relevance.spec_as_sync_status()
    }
}

/// Classification of a remote peer by comparing finalized epochs: behind if
/// the remote finalized epoch is lower than ours, fully synced if equal,
/// advanced if higher.
pub open spec fn spec_sync_relevance(local: SyncInfo, remote: SyncInfo) -> SyncRelevance {
    if remote.finalized_epoch.0 < local.finalized_epoch.0 {
        SyncRelevance::Behind
    } else if remote.finalized_epoch.0 == local.finalized_epoch.0 {
        SyncRelevance::FullySynced
    } else {
        SyncRelevance::Advanced
    }
}

/// Classify a remote peer against our own sync info.
pub fn determine_sync_relevance(local_sync_info: &SyncInfo, remote_sync_info: &SyncInfo) -> (r:
    SyncRelevance)
    ensures
        r == spec_sync_relevance(*local_sync_info, *remote_sync_info),
{
    if remote_sync_info.finalized_epoch.0 < local_sync_info.finalized_epoch.0 {
        SyncRelevance::Behind
    } else if remote_sync_info.finalized_epoch.0 == local_sync_info.finalized_epoch.0 {
        SyncRelevance::FullySynced
    } else {
        SyncRelevance::Advanced
    }
}

/// Law: classification is total - every pair of finalized epochs falls in
/// exactly one class - and depends only on the sign of
/// `remote.finalized_epoch - local.finalized_epoch`, monotonically: a
/// negative difference is behind, zero is fully synced, positive is advanced.
pub proof fn lemma_sync_classification_total(local: SyncInfo, remote: SyncInfo)
    ensures
        spec_sync_relevance(local, remote) == SyncRelevance::Behind <==> remote.finalized_epoch.0
            - local.finalized_epoch.0 < 0,
        spec_sync_relevance(local, remote) == SyncRelevance::FullySynced
            <==> remote.finalized_epoch.0 - local.finalized_epoch.0 == 0,
        spec_sync_relevance(local, remote) == SyncRelevance::Advanced <==> remote.finalized_epoch.0
            - local.finalized_epoch.0 > 0,
{
}

/// The sync manager: consumes per-peer sync reports, classifies each peer
/// against our own chain view, records the classification in the peer store,
/// and hands advanced peers to the range sync.
pub struct SyncManager {
    pub range_sync: crate::sync::range_sync::RangeSync,
}

impl SyncManager {
    pub fn new() -> (m: SyncManager)
        ensures
            m.range_sync.chains.finalized_chains@.len() == 0,
            m.range_sync.chains.wf(),
    {
        SyncManager { range_sync: crate::sync::range_sync::RangeSync::new() }
    }

    /// A peer has completed a validated STATUS exchange. Classify it against
    /// our own sync info, record the classification in the peer store, and,
    /// exactly when the peer is advanced, hand it to the range sync.
    /// `is_block_known` says whether the remote's finalized root is already
    /// known to our chain view.
    pub fn add_peer(
        &mut self,
        peer_db: &mut crate::peer_db::PeerDB,
        network: &mut crate::sync::network_context::SyncNetworkContext,
        peer_id: crate::types::PeerId,
        local_sync_info: &SyncInfo,
        remote_sync_info: &SyncInfo,
        is_block_known: bool,
    )
        requires
            old(peer_db).wf(),
            old(self).range_sync.chains.wf(),
            old(network).request_id + 2
                * crate::sync::chain_collection::ChainCollection::spec_total_peers(
                old(self).range_sync.chains.finalized_chains@,
            ) + 2 <= u32::MAX,
        ensures
            final(peer_db).wf(),
            final(self).range_sync.chains.wf(),
            // The classification is recorded for a known peer; a peer the
            // store never saw leaves it unchanged.
            old(peer_db).spec_has(peer_id@) ==> final(peer_db).spec_has(peer_id@) && final(peer_db).spec_info(peer_id@) == (crate::peer_db::PeerInfo {
                sync_status: spec_sync_relevance(
                    *local_sync_info,
                    *remote_sync_info,
                ).spec_as_sync_status(),
                ..old(peer_db).spec_info(peer_id@)
            }),
            !old(peer_db).spec_has(peer_id@) ==> *final(peer_db) == *old(peer_db),
            forall|q: Seq<u8>| final(peer_db).spec_has(q) <==> old(peer_db).spec_has(q),
            forall|q: Seq<u8>|
                #![auto]
                final(peer_db).spec_has(q) && q != peer_id@ ==> final(peer_db).spec_info(q) == old(
                    peer_db,
                ).spec_info(q),
            // Only advanced peers are handed to the range sync.
            spec_sync_relevance(*local_sync_info, *remote_sync_info) != SyncRelevance::Advanced
                ==> *final(self) == *old(self) && *final(network) == *old(network),
            // An advanced peer on a finalized sync joins the chain with its
            // reported target, unless a chain-id collision drops the report.
            (spec_sync_relevance(*local_sync_info, *remote_sync_info) == SyncRelevance::Advanced
                && crate::sync::range_sync::spec_range_sync_type(
                *local_sync_info,
                *remote_sync_info,
                is_block_known,
            ) == crate::sync::range_sync::RangeSyncType::Finalized && !(exists|i: int|
                #![auto]
                {
                    &&& 0 <= i < old(self).range_sync.chains.finalized_chains@.len()
                    &&& old(self).range_sync.chains.finalized_chains@[i].0
                        == crate::sync::syncing_chain::spec_chain_id(
                        remote_sync_info.finalized_root,
                        remote_sync_info.head_slot,
                    )
                    &&& (old(self).range_sync.chains.finalized_chains@[i].1.target_head_root
                        != remote_sync_info.finalized_root || old(
                        self,
                    ).range_sync.chains.finalized_chains@[i].1.target_head_slot
                        != remote_sync_info.head_slot)
                })) ==> exists|i: int|
                {
                    &&& 0 <= i < final(self).range_sync.chains.finalized_chains@.len()
                    &&& (#[trigger] final(self).range_sync.chains.finalized_chains@[i].1).spec_has_peer(peer_id@)
                    &&& final(self).range_sync.chains.finalized_chains@[i].1.target_head_root
                        == remote_sync_info.finalized_root
                    &&& final(self).range_sync.chains.finalized_chains@[i].1.target_head_slot
                        == remote_sync_info.head_slot
                },
            // Once an advanced peer is routed and chains exist, the picked
            // chain has no peer left idle unless its windows have run out.
            (spec_sync_relevance(*local_sync_info, *remote_sync_info) == SyncRelevance::Advanced
                && final(self).range_sync.chains.finalized_chains@.len() > 0) ==> exists|i: int|
                {
                    &&& 0 <= i < final(self).range_sync.chains.finalized_chains@.len()
                    &&& (#[trigger] final(self).range_sync.chains.finalized_chains@[i].1).state
                        == crate::sync::syncing_chain::SyncingState::Syncing
                    &&& forall|j: int|
                        0 <= j < final(self).range_sync.chains.finalized_chains@[i].1.peers@.len()
                            ==> ((#[trigger] final(self).range_sync.chains.finalized_chains@[i].1.peers@[j].1)@.len() > 0
                            || !final(self).range_sync.chains.finalized_chains@[i].1.spec_can_emit())
                },
            // A head sync is unsupported: no chain is created for it.
            (spec_sync_relevance(*local_sync_info, *remote_sync_info) == SyncRelevance::Advanced
                && crate::sync::range_sync::spec_range_sync_type(
                *local_sync_info,
                *remote_sync_info,
                is_block_known,
            ) == crate::sync::range_sync::RangeSyncType::Head) ==> final(self).range_sync.chains.finalized_chains@.len() == old(
                self,
            ).range_sync.chains.finalized_chains@.len(),
    {
        let relevance = determine_sync_relevance(local_sync_info, remote_sync_info);

        // Update the state of the peer.
        peer_db.update_sync_status(&peer_id, SyncStatus::from(relevance));

        if matches!(relevance, SyncRelevance::Advanced) {
            let _ = self.range_sync.add_peer(
                network,
                peer_id,
                local_sync_info,
                remote_sync_info,
                is_block_known,
            );
        }
    }
}

/// Law: two peer reports whose finalized epochs stand in the same relation to
/// the local one are classified alike, whatever the other fields hold.
pub proof fn lemma_sync_classification_sign_only(
    local1: SyncInfo,
    remote1: SyncInfo,
    local2: SyncInfo,
    remote2: SyncInfo,
)
    requires
        (remote1.finalized_epoch.0 < local1.finalized_epoch.0) == (remote2.finalized_epoch.0
            < local2.finalized_epoch.0),
        (remote1.finalized_epoch.0 == local1.finalized_epoch.0) == (remote2.finalized_epoch.0
            == local2.finalized_epoch.0),
    ensures
        spec_sync_relevance(local1, remote1) == spec_sync_relevance(local2, remote2),
{
}

} // verus!
