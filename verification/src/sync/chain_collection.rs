//! The set of finalized chains being synced, and which of them is actively
//! syncing: on every update the chain with the most available peers is
//! picked.

use vstd::prelude::*;

use crate::sync::network_context::SyncNetworkContext;
use crate::sync::syncing_chain::{spec_chain_id, ChainId, SyncingChain, SyncingState};
use crate::types::{Epoch, PeerId, Root, Slot};

verus! {

/// The overall state of the range sync.
#[derive(Clone, Copy, Debug, PartialEq, Eq, Structural)]
pub enum RangeSyncState {
    /// There are no finalized chains and no long-range sync is in progress.
    Idle,
    /// A finalized chain is being synced.
    Syncing(ChainId),
}

/// What happened when a peer reported a sync target.
#[derive(Clone, Copy, Debug, PartialEq, Eq, Structural)]
pub enum AddPeerOutcome {
    /// A chain with the same target already existed; the peer joined it.
    AddedToExisting,
    /// No chain had this target; a new one was created for the peer.
    CreatedNewChain,
    /// A chain with the same id holds a different target: a chain-id
    /// collision. The report is dropped rather than corrupting the chain.
    TargetMismatch,
}

/// The finalized chains being synced, keyed by chain id.
pub struct ChainCollection {
    /// The current sync state of the process.
    pub state: RangeSyncState,
    /// The set of finalized chains being synced.
    pub finalized_chains: Vec<(ChainId, SyncingChain)>,
}

impl ChainCollection {
    /// Chain ids are unique, each entry is keyed by its chain's own id, each
    /// chain is well formed, and each id is the one derived from the chain's
    /// target.
    pub open spec fn wf(self) -> bool {
        &&& forall|i: int, j: int|
            0 <= i < j < self.finalized_chains@.len() ==> (
            #[trigger] self.finalized_chains@[i].0) != (#[trigger] self.finalized_chains@[j].0)
        &&& forall|i: int|
            0 <= i < self.finalized_chains@.len() ==> (#[trigger] self.finalized_chains@[i].0)
                == self.finalized_chains@[i].1.id
        &&& forall|i: int|
            0 <= i < self.finalized_chains@.len() ==> (
            #[trigger] self.finalized_chains@[i].1).wf()
        &&& forall|i: int|
            0 <= i < self.finalized_chains@.len() ==> (#[trigger] self.finalized_chains@[i].1).id
                == spec_chain_id(
                self.finalized_chains@[i].1.target_head_root,
                self.finalized_chains@[i].1.target_head_slot,
            )
    }

    /// A chain with this id exists.
    pub open spec fn spec_has_chain(self, id: ChainId) -> bool {
        exists|i: int|
            0 <= i < self.finalized_chains@.len() && (#[trigger] self.finalized_chains@[i].0) == id
    }

    /// The network context has room for one request per peer of every chain,
    /// with `extra` more to spare.
    pub open spec fn spec_request_headroom(self, net: SyncNetworkContext, extra: int) -> bool {
        forall|i: int|
            0 <= i < self.finalized_chains@.len() ==> net.request_id + (
            #[trigger] self.finalized_chains@[i].1).peers@.len() + extra <= u32::MAX
    }

    /// The sum of the peer counts of all chains.
    pub open spec fn spec_total_peers(s: Seq<(ChainId, SyncingChain)>) -> int
        decreases s.len(),
    {
        if s.len() == 0 {
            0
        } else {
            ChainCollection::spec_total_peers(s.drop_last()) + s.last().1.peers@.len()
        }
    }

    /// Each chain's peer count is bounded by the sum over all chains.
    pub proof fn lemma_peers_le_total(s: Seq<(ChainId, SyncingChain)>)
        ensures
            ChainCollection::spec_total_peers(s) >= 0,
            forall|i: int|
                0 <= i < s.len() ==> (#[trigger] s[i].1).peers@.len()
                    <= ChainCollection::spec_total_peers(s),
        decreases s.len(),
    {
        if s.len() > 0 {
            ChainCollection::lemma_peers_le_total(s.drop_last());
            assert forall|i: int|
                0 <= i < s.len() implies (#[trigger] s[i].1).peers@.len()
                <= ChainCollection::spec_total_peers(s) by {
                if i < s.len() - 1 {
                    assert(s.drop_last()[i] == s[i]);
                }
            }
        }
    }

    pub fn new() -> (c: ChainCollection)
        ensures
            c.state == RangeSyncState::Idle,
            c.finalized_chains@.len() == 0,
            c.wf(),
    {
        ChainCollection { state: RangeSyncState::Idle, finalized_chains: Vec::new() }
    }

    /// The index of the chain with this id, if any.
    fn find_chain(&self, id: ChainId) -> (r: Option<usize>)
        ensures
            match r {
                Some(i) => i < self.finalized_chains@.len() && self.finalized_chains@[i as int].0
                    == id,
                None => !self.spec_has_chain(id),
            },
    {
        let n = self.finalized_chains.len();
        let mut i: usize = 0;
        while i < n
            invariant
                n == self.finalized_chains@.len(),
                i <= n,
                forall|j: int| 0 <= j < i ==> (#[trigger] self.finalized_chains@[j].0) != id,
            decreases n - i,
        {
            if self.finalized_chains[i].0 == id {
                return Some(i);
            }
            i = i + 1;
        }
        None
    }

    /// Route a peer that reported the sync target (`target_head_root`,
    /// `target_head_slot`): add it to the chain with that target if one
    /// exists, start a new chain at `start_epoch` otherwise. A chain-id
    /// collision (same id, different target) drops the report.
    pub fn add_peer_or_create_chain(
        &mut self,
        network: &mut SyncNetworkContext,
        peer_id: PeerId,
        start_epoch: Epoch,
        target_head_root: Root,
        target_head_slot: Slot,
    ) -> (outcome: AddPeerOutcome)
        requires
            old(self).wf(),
            old(self).spec_request_headroom(*old(network), 1),
        ensures
            final(self).wf(),
            final(self).state == old(self).state,
            match outcome {
                AddPeerOutcome::TargetMismatch => {
                    &&& *final(self) == *old(self)
                    &&& *final(network) == *old(network)
                    &&& exists|i: int|
                        #![auto]
                        {
                            &&& 0 <= i < old(self).finalized_chains@.len()
                            &&& old(self).finalized_chains@[i].0 == spec_chain_id(
                                target_head_root,
                                target_head_slot,
                            )
                            &&& (old(self).finalized_chains@[i].1.target_head_root
                                != target_head_root || old(
                                self,
                            ).finalized_chains@[i].1.target_head_slot != target_head_slot)
                        }
                },
                AddPeerOutcome::AddedToExisting => exists|i: int|
                    #![auto]
                    {
                        &&& 0 <= i < old(self).finalized_chains@.len()
                        &&& old(self).finalized_chains@[i].0 == spec_chain_id(
                            target_head_root,
                            target_head_slot,
                        )
                        &&& old(self).finalized_chains@[i].1.target_head_root == target_head_root
                        &&& old(self).finalized_chains@[i].1.target_head_slot == target_head_slot
                        &&& final(self).finalized_chains@.len() == old(
                            self,
                        ).finalized_chains@.len()
                        &&& forall|j: int|
                            0 <= j < final(self).finalized_chains@.len() && j != i ==> (
                            #[trigger] final(self).finalized_chains@[j]) == old(
                                self,
                            ).finalized_chains@[j]
                        &&& final(self).finalized_chains@[i].0 == old(self).finalized_chains@[i].0
                        &&& final(self).finalized_chains@[i].1.spec_has_peer(peer_id@)
                        &&& final(self).finalized_chains@[i].1.target_head_root
                            == target_head_root
                        &&& final(self).finalized_chains@[i].1.target_head_slot
                            == target_head_slot
                        &&& final(self).finalized_chains@[i].1.state == old(
                            self,
                        ).finalized_chains@[i].1.state
                        &&& final(self).finalized_chains@[i].1.peers@.len() == old(
                            self,
                        ).finalized_chains@[i].1.peers@.len() + if old(
                            self,
                        ).finalized_chains@[i].1.spec_has_peer(peer_id@) {
                            0int
                        } else {
                            1int
                        }
                        &&& forall|k: int|
                            0 <= k < old(self).finalized_chains@[i].1.peers@.len() ==> (
                            #[trigger] final(self).finalized_chains@[i].1.peers@[k]).0@ == old(
                                self,
                            ).finalized_chains@[i].1.peers@[k].0@
                        &&& ((old(self).finalized_chains@[i].1.state == SyncingState::Syncing
                            && !old(self).finalized_chains@[i].1.spec_peer_has_outstanding(
                            peer_id@,
                        )) ==> forall|j: int|
                            0 <= j < final(self).finalized_chains@[i].1.peers@.len() ==> ((
                            #[trigger] final(self).finalized_chains@[i].1.peers@[j].1)@.len() > 0
                                || !final(self).finalized_chains@[i].1.spec_can_emit()))
                        &&& final(network).request_id >= old(network).request_id
                        &&& final(network).request_id <= old(network).request_id + old(
                            self,
                        ).finalized_chains@[i].1.peers@.len() + 1
                        &&& final(network).outbox@.len() >= old(network).outbox@.len()
                        &&& final(network).outbox@.subrange(0, old(network).outbox@.len() as int)
                            =~= old(network).outbox@
                    },
                AddPeerOutcome::CreatedNewChain => {
                    &&& !old(self).spec_has_chain(
                        spec_chain_id(target_head_root, target_head_slot),
                    )
                    &&& final(self).finalized_chains@.len() == old(self).finalized_chains@.len()
                        + 1
                    &&& forall|j: int|
                        0 <= j < old(self).finalized_chains@.len() ==> (
                        #[trigger] final(self).finalized_chains@[j]) == old(
                            self,
                        ).finalized_chains@[j]
                    &&& final(self).finalized_chains@.last().0 == spec_chain_id(
                        target_head_root,
                        target_head_slot,
                    )
                    &&& final(self).finalized_chains@.last().1.state == SyncingState::Stopped
                    &&& final(self).finalized_chains@.last().1.start_epoch == start_epoch
                    &&& final(self).finalized_chains@.last().1.target_head_root
                        == target_head_root
                    &&& final(self).finalized_chains@.last().1.target_head_slot
                        == target_head_slot
                    &&& final(self).finalized_chains@.last().1.peers@.len() == 1
                    &&& final(self).finalized_chains@.last().1.peers@[0].0@ == peer_id@
                    &&& final(self).finalized_chains@.last().1.to_be_downloaded == start_epoch
                    &&& final(self).finalized_chains@.last().1.batches@.len() == 0
                    &&& *final(network) == *old(network)
                },
            },
    {
        let chain_id = crate::sync::syncing_chain::id(&target_head_root, &target_head_slot);

        match self.find_chain(chain_id) {
            Some(i) => {
                let matches_target = self.finalized_chains[i].1.target_head_root
                    == target_head_root && self.finalized_chains[i].1.target_head_slot
                    == target_head_slot;
                if !matches_target {
                    // A chain-id collision between two genuinely different
                    // sync targets: drop the report.
                    return AddPeerOutcome::TargetMismatch;
                }

                // Adding peer to a known chain.
                let ghost pre = self.finalized_chains@;
                let (cid, mut chain) = self.finalized_chains.remove(i);
                chain.add_peer(network, peer_id);
                self.finalized_chains.insert(i, (cid, chain));
                proof {
                    assert(self.finalized_chains@ =~= pre.update(
                        i as int,
                        self.finalized_chains@[i as int],
                    ));
                }
                AddPeerOutcome::AddedToExisting
            },
            None => {
                // A new finalized chain is added to sync.
                let chain = SyncingChain::new(
                    start_epoch,
                    target_head_slot,
                    target_head_root,
                    peer_id,
                );
                self.finalized_chains.push((chain_id, chain));
                AddPeerOutcome::CreatedNewChain
            },
        }
    }

    /// The index of the first chain with the most available peers, if any
    /// chain exists.
    fn select_chain(&self) -> (r: Option<usize>)
        ensures
            match r {
                None => self.finalized_chains@.len() == 0,
                Some(i) => {
                    &&& i < self.finalized_chains@.len()
                    &&& forall|j: int|
                        0 <= j < self.finalized_chains@.len() ==> (
                        #[trigger] self.finalized_chains@[j].1).peers@.len()
                            <= self.finalized_chains@[i as int].1.peers@.len()
                    &&& forall|j: int|
                        0 <= j < i ==> (#[trigger] self.finalized_chains@[j].1).peers@.len()
                            < self.finalized_chains@[i as int].1.peers@.len()
                },
            },
    {
        let n = self.finalized_chains.len();
        if n == 0 {
            return None;
        }
        let mut best: usize = 0;
        let mut best_count: usize = self.finalized_chains[0].1.available_peers();
        let mut i: usize = 1;
        while i < n
            invariant
                n == self.finalized_chains@.len(),
                best < i <= n,
                best_count == self.finalized_chains@[best as int].1.peers@.len(),
                forall|j: int|
                    0 <= j < i ==> (#[trigger] self.finalized_chains@[j].1).peers@.len()
                        <= best_count,
                forall|j: int|
                    0 <= j < best ==> (#[trigger] self.finalized_chains@[j].1).peers@.len()
                        < best_count,
            decreases n - i,
        {
            let count = self.finalized_chains[i].1.available_peers();
            if count > best_count {
                best = i;
                best_count = count;
            }
            i = i + 1;
        }
        Some(best)
    }

    /// Update which chain is actively syncing: pick the chain with the most
    /// available peers, mark it as the syncing one, and start (or continue)
    /// syncing it from the local finalized epoch.
    pub fn update(&mut self, network: &mut SyncNetworkContext, local_finalized_epoch: Epoch)
        requires
            old(self).wf(),
            old(self).spec_request_headroom(*old(network), 0),
        ensures
            final(self).wf(),
            final(self).finalized_chains@.len() == old(self).finalized_chains@.len(),
            forall|j: int|
                0 <= j < old(self).finalized_chains@.len() ==> (
                #[trigger] final(self).finalized_chains@[j]).0 == old(self).finalized_chains@[j].0,
            forall|j: int|
                0 <= j < old(self).finalized_chains@.len() ==> (
                #[trigger] final(self).finalized_chains@[j]).1.peers@.len() == old(
                    self,
                ).finalized_chains@[j].1.peers@.len(),
            forall|j: int, p: Seq<u8>|
                0 <= j < old(self).finalized_chains@.len() ==> (#[trigger] final(self).finalized_chains@[j].1.spec_has_peer(p) <==> old(
                    self,
                ).finalized_chains@[j].1.spec_has_peer(p)),
            forall|j: int|
                0 <= j < old(self).finalized_chains@.len() ==> (
                #[trigger] final(self).finalized_chains@[j]).1.target_head_root == old(
                    self,
                ).finalized_chains@[j].1.target_head_root && final(self).finalized_chains@[j].1.target_head_slot == old(
                    self,
                ).finalized_chains@[j].1.target_head_slot,
            old(self).finalized_chains@.len() == 0 ==> *final(self) == *old(self)
                && *final(network) == *old(network),
            old(self).finalized_chains@.len() > 0 ==> exists|i: int|
                #![auto]
                {
                    &&& 0 <= i < old(self).finalized_chains@.len()
                    &&& forall|j: int|
                        0 <= j < old(self).finalized_chains@.len() ==> (
                        #[trigger] old(self).finalized_chains@[j].1).peers@.len() <= old(
                            self,
                        ).finalized_chains@[i].1.peers@.len()
                    &&& final(self).state == RangeSyncState::Syncing(
                        old(self).finalized_chains@[i].0,
                    )
                    &&& final(self).finalized_chains@.len() == old(self).finalized_chains@.len()
                    &&& forall|j: int|
                        0 <= j < final(self).finalized_chains@.len() && j != i ==> (
                        #[trigger] final(self).finalized_chains@[j]) == old(
                            self,
                        ).finalized_chains@[j]
                    &&& final(self).finalized_chains@[i].0 == old(self).finalized_chains@[i].0
                    &&& final(self).finalized_chains@[i].1.target_head_root == old(
                        self,
                    ).finalized_chains@[i].1.target_head_root
                    &&& final(self).finalized_chains@[i].1.target_head_slot == old(
                        self,
                    ).finalized_chains@[i].1.target_head_slot
                    &&& final(self).finalized_chains@[i].1.state == SyncingState::Syncing
                    &&& final(self).finalized_chains@[i].1.start_epoch.0 == if local_finalized_epoch.0
                        > old(self).finalized_chains@[i].1.start_epoch.0 {
                        local_finalized_epoch.0
                    } else {
                        old(self).finalized_chains@[i].1.start_epoch.0
                    }
                    &&& SyncingChain::spec_batch_dispatch(
                        old(self).finalized_chains@[i].1.peers@,
                        final(self).finalized_chains@[i].1.peers@,
                        *old(network),
                        *final(network),
                    )
                    &&& forall|j: int|
                        0 <= j < final(self).finalized_chains@[i].1.peers@.len() ==> ((
                        #[trigger] final(self).finalized_chains@[i].1.peers@[j].1)@.len() > 0
                            || !final(self).finalized_chains@[i].1.spec_can_emit())
                },
    {
        self.update_finalized_chains(network, local_finalized_epoch);
    }

    fn update_finalized_chains(&mut self, network: &mut SyncNetworkContext, local_finalized_epoch: Epoch)
        requires
            old(self).wf(),
            old(self).spec_request_headroom(*old(network), 0),
        ensures
            final(self).wf(),
            final(self).finalized_chains@.len() == old(self).finalized_chains@.len(),
            forall|j: int|
                0 <= j < old(self).finalized_chains@.len() ==> (
                #[trigger] final(self).finalized_chains@[j]).0 == old(self).finalized_chains@[j].0,
            forall|j: int|
                0 <= j < old(self).finalized_chains@.len() ==> (
                #[trigger] final(self).finalized_chains@[j]).1.peers@.len() == old(
                    self,
                ).finalized_chains@[j].1.peers@.len(),
            forall|j: int, p: Seq<u8>|
                0 <= j < old(self).finalized_chains@.len() ==> (#[trigger] final(self).finalized_chains@[j].1.spec_has_peer(p) <==> old(
                    self,
                ).finalized_chains@[j].1.spec_has_peer(p)),
            forall|j: int|
                0 <= j < old(self).finalized_chains@.len() ==> (
                #[trigger] final(self).finalized_chains@[j]).1.target_head_root == old(
                    self,
                ).finalized_chains@[j].1.target_head_root && final(self).finalized_chains@[j].1.target_head_slot == old(
                    self,
                ).finalized_chains@[j].1.target_head_slot,
            old(self).finalized_chains@.len() == 0 ==> *final(self) == *old(self)
                && *final(network) == *old(network),
            old(self).finalized_chains@.len() > 0 ==> exists|i: int|
                #![auto]
                {
                    &&& 0 <= i < old(self).finalized_chains@.len()
                    &&& forall|j: int|
                        0 <= j < old(self).finalized_chains@.len() ==> (
                        #[trigger] old(self).finalized_chains@[j].1).peers@.len() <= old(
                            self,
                        ).finalized_chains@[i].1.peers@.len()
                    &&& final(self).state == RangeSyncState::Syncing(
                        old(self).finalized_chains@[i].0,
                    )
                    &&& final(self).finalized_chains@.len() == old(self).finalized_chains@.len()
                    &&& forall|j: int|
                        0 <= j < final(self).finalized_chains@.len() && j != i ==> (
                        #[trigger] final(self).finalized_chains@[j]) == old(
                            self,
                        ).finalized_chains@[j]
                    &&& final(self).finalized_chains@[i].0 == old(self).finalized_chains@[i].0
                    &&& final(self).finalized_chains@[i].1.target_head_root == old(
                        self,
                    ).finalized_chains@[i].1.target_head_root
                    &&& final(self).finalized_chains@[i].1.target_head_slot == old(
                        self,
                    ).finalized_chains@[i].1.target_head_slot
                    &&& final(self).finalized_chains@[i].1.state == SyncingState::Syncing
                    &&& final(self).finalized_chains@[i].1.start_epoch.0 == if local_finalized_epoch.0
                        > old(self).finalized_chains@[i].1.start_epoch.0 {
                        local_finalized_epoch.0
                    } else {
                        old(self).finalized_chains@[i].1.start_epoch.0
                    }
                    &&& SyncingChain::spec_batch_dispatch(
                        old(self).finalized_chains@[i].1.peers@,
                        final(self).finalized_chains@[i].1.peers@,
                        *old(network),
                        *final(network),
                    )
                    &&& forall|j: int|
                        0 <= j < final(self).finalized_chains@[i].1.peers@.len() ==> ((
                        #[trigger] final(self).finalized_chains@[i].1.peers@[j].1)@.len() > 0
                            || !final(self).finalized_chains@[i].1.spec_can_emit())
                },
    {
        let idx = match self.select_chain() {
            Some(i) => i,
            None => {
                // No finalized chains found.
                return ;
            },
        };

        let new_syncing_chain_id = self.finalized_chains[idx].0;
        self.state = RangeSyncState::Syncing(new_syncing_chain_id);

        let ghost pre = self.finalized_chains@;
        let (cid, mut chain) = self.finalized_chains.remove(idx);
        chain.start_syncing(network, local_finalized_epoch);
        self.finalized_chains.insert(idx, (cid, chain));
        proof {
            assert(self.finalized_chains@ =~= pre.update(
                idx as int,
                self.finalized_chains@[idx as int],
            ));
            assert forall|j: int, p: Seq<u8>|
                0 <= j < old(self).finalized_chains@.len() implies (#[trigger] self.finalized_chains@[j].1.spec_has_peer(p)
                <==> old(self).finalized_chains@[j].1.spec_has_peer(p)) by {
                if j == idx as int {
                    let pre_peers = old(self).finalized_chains@[j].1.peers@;
                    let post_peers = self.finalized_chains@[j].1.peers@;
                    if old(self).finalized_chains@[j].1.spec_has_peer(p) {
                        let k = choose|k: int|
                            0 <= k < pre_peers.len() && (#[trigger] pre_peers[k].0)@ == p;
                        assert(post_peers[k].0@ == p);
                    }
                    if self.finalized_chains@[j].1.spec_has_peer(p) {
                        let k = choose|k: int|
                            0 <= k < post_peers.len() && (#[trigger] post_peers[k].0)@ == p;
                        assert(pre_peers[k].0@ == p);
                    }
                }
            }
        }
    }
}

} // verus!
