//! One finalized chain being range-synced: the peers that agree on its
//! target, the epoch-aligned batch windows already handed out, and the next
//! window to download. Blocks are downloaded in batches of
//! `EPOCHS_PER_BATCH` epochs from the peers of the chain.

use vstd::prelude::*;

use crate::network::{ApplicationRequestId, NetworkMessage, Request};
use crate::rpc::BlocksByRangeRequest;
use crate::sync::network_context::SyncNetworkContext;
use crate::sync::SyncRequestId;
use crate::types::{Epoch, PeerId, Root, Slot, SLOTS_PER_EPOCH};

verus! {

/// A chain identifier.
pub type ChainId = u64;

/// A batch is named by the first epoch of its window.
pub type BatchId = Epoch;

/// How many epochs worth of blocks one batch covers.
pub const EPOCHS_PER_BATCH: u64 = 2;

/// One step of the chain-id fold: xor the next word in, then multiply by the
/// 64-bit FNV prime, wrapping.
pub open spec fn spec_mix(h: u64, x: u64) -> u64 {
    vstd::wrapping::u64_specs::wrapping_mul(h ^ x, 0x100000001b3)
}

/// The chain id of a sync target: the target root's four words and the
/// target slot folded through `spec_mix` from the 64-bit FNV offset basis. A
/// pure function of its inputs, so peers that report the same target meet in
/// the same chain.
pub open spec fn spec_chain_id(target_root: Root, target_slot: Slot) -> u64 {
    spec_mix(
        spec_mix(
            spec_mix(
                spec_mix(spec_mix(0xcbf29ce484222325, target_root.w0), target_root.w1),
                target_root.w2,
            ),
            target_root.w3,
        ),
        target_slot.0,
    )
}

fn mix(h: u64, x: u64) -> (r: u64)
    ensures
        r == spec_mix(h, x),
{
    (h ^ x).wrapping_mul(0x100000001b3)
}

/// The chain identifier for a sync target.
pub fn id(target_root: &Root, target_slot: &Slot) -> (r: u64)
    ensures
        r == spec_chain_id(*target_root, *target_slot),
{
    let mut h: u64 = mix(0xcbf29ce484222325, target_root.w0);
    h = mix(h, target_root.w1);
    h = mix(h, target_root.w2);
    h = mix(h, target_root.w3);
    mix(h, target_slot.0)
}

/// Law: the chain id is a pure, deterministic function of the target root
/// and slot - equal inputs always give the same id, so two peers reporting
/// an identical target merge into one syncing chain.
pub proof fn lemma_chain_id_deterministic(r1: Root, s1: Slot, r2: Root, s2: Slot)
    requires
        r1 == r2,
        s1 == s2,
    ensures
        spec_chain_id(r1, s1) == spec_chain_id(r2, s2),
{
}

/// A segment of a chain: the slots downloaded for one batch.
#[derive(Clone, Copy, Debug, PartialEq, Eq, Structural)]
pub struct BatchInfo {
    /// Start slot of the batch.
    pub start_slot: Slot,
    /// End slot of the batch (exclusive).
    pub end_slot: Slot,
}

impl BatchInfo {
    /// The window downloaded for `epoch`: the slot after the epoch's first
    /// slot, through `EPOCHS_PER_BATCH` epochs of slots.
    pub fn new(epoch: &Epoch) -> (b: BatchInfo)
        requires
            epoch.0 * SLOTS_PER_EPOCH + 1 + EPOCHS_PER_BATCH * SLOTS_PER_EPOCH <= u64::MAX,
        ensures
            b.start_slot.0 == epoch.0 * SLOTS_PER_EPOCH + 1,
            b.end_slot.0 == b.start_slot.0 + EPOCHS_PER_BATCH * SLOTS_PER_EPOCH,
    {
        let start_slot = Slot(epoch.start_slot().0 + 1);
        let end_slot = Slot(start_slot.0 + EPOCHS_PER_BATCH * SLOTS_PER_EPOCH);
        BatchInfo { start_slot, end_slot }
    }

    /// The BlocksByRange request that downloads this batch.
    pub fn to_blocks_by_range_request(&self) -> (r: BlocksByRangeRequest)
        requires
            self.start_slot.0 <= self.end_slot.0,
        ensures
            r.start_slot == self.start_slot.0,
            r.count == self.end_slot.0 - self.start_slot.0,
    {
        BlocksByRangeRequest {
            start_slot: self.start_slot.0,
            count: self.end_slot.0 - self.start_slot.0,
        }
    }
}

/// The current state of sync of one chain.
#[derive(Clone, Copy, Debug, PartialEq, Eq, Structural)]
pub enum SyncingState {
    /// The chain is not being synced.
    Stopped,
    /// The chain is undergoing syncing.
    Syncing,
}

/// A chain of blocks being downloaded in epoch-aligned batches.
pub struct SyncingChain {
    /// The chain's identifier, derived from its target.
    pub id: ChainId,
    /// The current state of sync.
    pub state: SyncingState,
    /// The start of the chain segment. Every epoch before this one has been
    /// validated. Never regresses.
    pub start_epoch: Epoch,
    /// The target head slot.
    pub target_head_slot: Slot,
    /// The target head root.
    pub target_head_root: Root,
    /// The peers that agree on the chain's target, each with the batches
    /// currently requested from it.
    pub peers: Vec<(PeerId, Vec<BatchId>)>,
    /// Starting epoch of the next batch that needs to be downloaded.
    pub to_be_downloaded: Epoch,
    /// The batches handed out so far, keyed by their first epoch.
    pub batches: Vec<(Epoch, BatchInfo)>,
}

impl SyncingChain {
    /// Peers are unique; every batch key lies below `to_be_downloaded`, is
    /// unique, and its window is the one `BatchInfo::new` builds for it.
    pub open spec fn wf(self) -> bool {
        &&& forall|i: int, j: int|
            0 <= i < j < self.peers@.len() ==> (#[trigger] self.peers@[i].0)@ != (
            #[trigger] self.peers@[j].0)@
        &&& forall|i: int|
            0 <= i < self.batches@.len() ==> (#[trigger] self.batches@[i].0).0
                < self.to_be_downloaded.0
        &&& forall|i: int, j: int|
            0 <= i < j < self.batches@.len() ==> (#[trigger] self.batches@[i].0) != (
            #[trigger] self.batches@[j].0)
        &&& forall|i: int|
            0 <= i < self.batches@.len() ==> {
                &&& (#[trigger] self.batches@[i].1).start_slot.0 == self.batches@[i].0.0
                    * SLOTS_PER_EPOCH + 1
                &&& self.batches@[i].1.end_slot.0 == self.batches@[i].1.start_slot.0
                    + EPOCHS_PER_BATCH * SLOTS_PER_EPOCH
            }
    }

    /// A batch window starting at this epoch has been handed out.
    pub open spec fn spec_has_batch(self, e: Epoch) -> bool {
        exists|i: int| 0 <= i < self.batches@.len() && (#[trigger] self.batches@[i].0) == e
    }

    /// This peer belongs to the chain.
    pub open spec fn spec_has_peer(self, p: Seq<u8>) -> bool {
        exists|i: int| 0 <= i < self.peers@.len() && (#[trigger] self.peers@[i].0)@ == p
    }

    /// The chain holds this peer with at least one outstanding batch.
    pub open spec fn spec_peer_has_outstanding(self, p: Seq<u8>) -> bool {
        exists|j: int|
            0 <= j < self.peers@.len() && (#[trigger] self.peers@[j].0)@ == p
                && self.peers@[j].1@.len() > 0
    }

    /// Some message queued after `pre_net` is addressed to this peer.
    pub open spec fn spec_window_message_to(
        pre_net: SyncNetworkContext,
        post_net: SyncNetworkContext,
        peer: Seq<u8>,
    ) -> bool {
        exists|k: int|
            pre_net.outbox@.len() <= k < post_net.outbox@.len()
                && crate::network::spec_request_peer(#[trigger] post_net.outbox@[k]) == peer
    }

    /// Another batch window may be handed out: its arithmetic stays within
    /// `u64` and it starts below the target head slot.
    pub open spec fn spec_can_emit(self) -> bool {
        &&& self.to_be_downloaded.0 * SLOTS_PER_EPOCH + 1 + EPOCHS_PER_BATCH * SLOTS_PER_EPOCH
            <= u64::MAX
        &&& self.to_be_downloaded.0 * SLOTS_PER_EPOCH < self.target_head_slot.0
    }

    /// How one `next_batch` call relates the chain before to the chain
    /// after, and to the window it returned: nothing is handed out once the
    /// window would reach the target, and otherwise exactly the window at
    /// `to_be_downloaded` is handed out and the cursor moves up by
    /// `EPOCHS_PER_BATCH`.
    pub open spec fn spec_next_batch_post(
        pre: SyncingChain,
        post: SyncingChain,
        r: Option<Epoch>,
    ) -> bool {
        &&& post.id == pre.id
        &&& post.state == pre.state
        &&& post.start_epoch == pre.start_epoch
        &&& post.target_head_slot == pre.target_head_slot
        &&& post.target_head_root == pre.target_head_root
        &&& post.peers == pre.peers
        &&& match r {
            None => post == pre && !pre.spec_can_emit(),
            Some(e) => {
                &&& pre.spec_can_emit()
                &&& !pre.spec_has_batch(e)
                &&& e == pre.to_be_downloaded
                &&& post.to_be_downloaded.0 == e.0 + EPOCHS_PER_BATCH
                &&& post.batches@ == pre.batches@.push(
                    (
                        e,
                        BatchInfo {
                            start_slot: Slot((e.0 * SLOTS_PER_EPOCH + 1) as u64),
                            end_slot: Slot(
                                (e.0 * SLOTS_PER_EPOCH + 1 + EPOCHS_PER_BATCH
                                    * SLOTS_PER_EPOCH) as u64,
                            ),
                        },
                    ),
                )
            },
        }
    }

    /// A new chain for this target, starting at `start_epoch`, with one peer
    /// and nothing downloaded yet.
    pub fn new(start_epoch: Epoch, target_head_slot: Slot, target_head_root: Root, peer_id: PeerId)
        -> (chain: SyncingChain)
        ensures
            chain.id == spec_chain_id(target_head_root, target_head_slot),
            chain.state == SyncingState::Stopped,
            chain.start_epoch == start_epoch,
            chain.target_head_slot == target_head_slot,
            chain.target_head_root == target_head_root,
            chain.peers@.len() == 1,
            chain.peers@[0].0@ == peer_id@,
            chain.peers@[0].1@.len() == 0,
            chain.to_be_downloaded == start_epoch,
            chain.batches@.len() == 0,
            chain.wf(),
    {
        let id = id(&target_head_root, &target_head_slot);
        let mut peers: Vec<(PeerId, Vec<BatchId>)> = Vec::new();
        peers.push((peer_id, Vec::new()));

        SyncingChain {
            id,
            state: SyncingState::Stopped,
            start_epoch,
            target_head_slot,
            target_head_root,
            peers,
            to_be_downloaded: start_epoch,
            batches: Vec::new(),
        }
    }

    /// How many peers can serve this chain.
    pub fn available_peers(&self) -> (n: usize)
        ensures
            n == self.peers@.len(),
    {
        self.peers.len()
    }

    /// Creates the next required batch of the chain: the window starting at
    /// `to_be_downloaded`. If no more batches are required before the
    /// target, nothing is returned.
    pub fn next_batch(&mut self) -> (r: Option<Epoch>)
        requires
            old(self).wf(),
        ensures
            final(self).wf(),
            SyncingChain::spec_next_batch_post(*old(self), *final(self), r),
    {
        // Don't request batches beyond the target head slot; the window
        // arithmetic must also stay within a u64 slot number.
        let window_start = match self.to_be_downloaded.0.checked_mul(SLOTS_PER_EPOCH) {
            None => {
                return None;
            },
            Some(s) => s,
        };
        if window_start >= self.target_head_slot.0 {
            return None;
        }
        match window_start.checked_add(1 + EPOCHS_PER_BATCH * SLOTS_PER_EPOCH) {
            None => {
                return None;
            },
            Some(_) => {},
        }

        // Under the chain invariant every handed-out batch lies below
        // `to_be_downloaded`, so this window is new.
        let epoch = self.to_be_downloaded;
        proof {
            assert(!old(self).spec_has_batch(epoch));
        }
        let info = BatchInfo::new(&epoch);
        self.batches.push((epoch, info));
        self.to_be_downloaded = Epoch(epoch.0 + EPOCHS_PER_BATCH);
        Some(epoch)
    }

    /// Law: batch windows never overlap. Two successive `next_batch` calls
    /// that both hand out a window hand out epochs exactly
    /// `EPOCHS_PER_BATCH` apart - strictly increasing, never repeated - and
    /// the second window's slots begin exactly where the first window's
    /// slots end.
    pub proof fn lemma_batch_windows_disjoint(
        s0: SyncingChain,
        s1: SyncingChain,
        s2: SyncingChain,
        e1: Epoch,
        e2: Epoch,
    )
        requires
            SyncingChain::spec_next_batch_post(s0, s1, Some(e1)),
            SyncingChain::spec_next_batch_post(s1, s2, Some(e2)),
        ensures
            e2.0 == e1.0 + EPOCHS_PER_BATCH,
            e2.0 > e1.0,
            e2.0 * SLOTS_PER_EPOCH + 1 == (e1.0 * SLOTS_PER_EPOCH + 1) + EPOCHS_PER_BATCH
                * SLOTS_PER_EPOCH,
    {
        assert(e2.0 * SLOTS_PER_EPOCH == (e1.0 + EPOCHS_PER_BATCH) * SLOTS_PER_EPOCH);
        assert((e1.0 + EPOCHS_PER_BATCH) * SLOTS_PER_EPOCH == e1.0 * SLOTS_PER_EPOCH
            + EPOCHS_PER_BATCH * SLOTS_PER_EPOCH) by (nonlinear_arith);
    }

    /// The message asks one peer for the batch window newly assigned to it:
    /// some peer that had no outstanding batch before holds exactly one now,
    /// the message is addressed to it, and the message's range covers that
    /// window's `EPOCHS_PER_BATCH` epochs from the slot after the window
    /// epoch's first slot.
    pub open spec fn spec_assigned_window_message(
        pre_peers: Seq<(PeerId, Vec<BatchId>)>,
        post_peers: Seq<(PeerId, Vec<BatchId>)>,
        message: NetworkMessage,
    ) -> bool {
        exists|j: int|
            {
                &&& 0 <= j < post_peers.len()
                &&& 0 <= j < pre_peers.len()
                &&& pre_peers[j].1@.len() == 0
                &&& (#[trigger] post_peers[j].1)@.len() == 1
                &&& crate::network::spec_request_peer(message) == post_peers[j].0@
                &&& crate::network::spec_request_start_slot(message) == post_peers[j].1@[0].0
                    * SLOTS_PER_EPOCH + 1
                &&& crate::network::spec_request_count(message) == EPOCHS_PER_BATCH
                    * SLOTS_PER_EPOCH
            }
    }

    /// How dispatching batches relates the peer assignments and the network
    /// context before and after: peers keep their identity and order; a peer
    /// either keeps its assignments or goes from none to exactly one; the
    /// network queue only grows, by range-sync BlocksByRange requests, one
    /// per peer at most.
    pub open spec fn spec_batch_dispatch(
        pre_peers: Seq<(PeerId, Vec<BatchId>)>,
        post_peers: Seq<(PeerId, Vec<BatchId>)>,
        pre_net: SyncNetworkContext,
        post_net: SyncNetworkContext,
    ) -> bool {
        &&& post_peers.len() == pre_peers.len()
        &&& forall|k: int|
            0 <= k < pre_peers.len() ==> (#[trigger] post_peers[k].0)@ == pre_peers[k].0@
        &&& forall|k: int|
            0 <= k < pre_peers.len() ==> ((#[trigger] post_peers[k].1)@ == pre_peers[k].1@ || (
            pre_peers[k].1@.len() == 0 && post_peers[k].1@.len() == 1))
        &&& post_net.request_id >= pre_net.request_id
        &&& post_net.request_id - pre_net.request_id <= pre_peers.len()
        &&& post_net.outbox@.len() >= pre_net.outbox@.len()
        &&& post_net.outbox@.subrange(0, pre_net.outbox@.len() as int) =~= pre_net.outbox@
        &&& forall|k: int|
            pre_net.outbox@.len() <= k < post_net.outbox@.len() ==> ((
            #[trigger] post_net.outbox@[k]) matches NetworkMessage::SendRequest {
                request: Request::BlocksByRange(_),
                request_id: ApplicationRequestId::Sync(SyncRequestId::RangeSync { .. }),
                ..
            })
        &&& forall|k: int|
            pre_net.outbox@.len() <= k < post_net.outbox@.len()
                ==> SyncingChain::spec_assigned_window_message(
                pre_peers,
                post_peers,
                #[trigger] post_net.outbox@[k],
            )
        &&& forall|k1: int, k2: int|
            pre_net.outbox@.len() <= k1 < k2 < post_net.outbox@.len()
                ==> crate::network::spec_request_start_slot(#[trigger] post_net.outbox@[k1])
                < crate::network::spec_request_start_slot(#[trigger] post_net.outbox@[k2])
        &&& forall|j: int|
            0 <= j < post_peers.len() && j < pre_peers.len() && pre_peers[j].1@.len() == 0 && (
            #[trigger] post_peers[j].1)@.len() > 0 ==> SyncingChain::spec_window_message_to(
                pre_net,
                post_net,
                post_peers[j].0@,
            )
    }

    /// Queue the request for the batch window keyed by `epoch` to the given
    /// peer. A window that was never handed out sends nothing.
    pub fn send_batch(
        &self,
        network: &mut SyncNetworkContext,
        peer_id: &PeerId,
        epoch: Epoch,
    )
        requires
            self.wf(),
            old(network).request_id < u32::MAX,
        ensures
            !self.spec_has_batch(epoch) ==> *final(network) == *old(network),
            self.spec_has_batch(epoch) ==> {
                &&& final(network).request_id == old(network).request_id + 1
                &&& final(network).outbox@.len() == old(network).outbox@.len() + 1
                &&& final(network).outbox@.subrange(0, old(network).outbox@.len() as int) == old(
                    network,
                ).outbox@
                &&& final(network).outbox@.last() matches NetworkMessage::SendRequest {
                    peer_id: p,
                    request: r,
                    request_id: rid,
                } && p@ == peer_id@ && r == Request::BlocksByRange(
                    BlocksByRangeRequest {
                        start_slot: (epoch.0 * SLOTS_PER_EPOCH + 1) as u64,
                        count: (EPOCHS_PER_BATCH * SLOTS_PER_EPOCH) as u64,
                    },
                ) && rid == ApplicationRequestId::Sync(
                    SyncRequestId::RangeSync { id: old(network).request_id },
                )
            },
    {
        let n = self.batches.len();
        let mut i: usize = 0;
        while i < n
            invariant
                self.wf(),
                old(network).request_id < u32::MAX,
                *network == *old(network),
                n == self.batches@.len(),
                i <= n,
                forall|j: int| 0 <= j < i ==> (#[trigger] self.batches@[j].0) != epoch,
            decreases n - i,
        {
            if self.batches[i].0 == epoch {
                let info = self.batches[i].1;
                let request = info.to_blocks_by_range_request();
                let _ = network.blocks_by_range_request(peer_id, request);
                return ;
            }
            i = i + 1;
        }
        // The batch was never handed out: nothing to request.
    }

    /// Hand out batch windows: every peer of the chain with no outstanding
    /// batch is assigned the next window and sent its request, until the
    /// windows reach the target head slot. Does nothing unless the chain is
    /// syncing.
    #[verifier::rlimit(50)]
    pub fn request_batches(&mut self, network: &mut SyncNetworkContext)
        requires
            old(self).wf(),
            old(network).request_id + old(self).peers@.len() <= u32::MAX,
        ensures
            final(self).wf(),
            old(self).state != SyncingState::Syncing ==> *final(self) == *old(self)
                && *final(network) == *old(network),
            final(self).id == old(self).id,
            final(self).state == old(self).state,
            final(self).start_epoch == old(self).start_epoch,
            final(self).target_head_slot == old(self).target_head_slot,
            final(self).target_head_root == old(self).target_head_root,
            final(self).to_be_downloaded.0 >= old(self).to_be_downloaded.0,
            SyncingChain::spec_batch_dispatch(
                old(self).peers@,
                final(self).peers@,
                *old(network),
                *final(network),
            ),
            // While the chain is syncing, no peer is left idle unless the
            // windows have run out: requesting is owed, not merely allowed.
            old(self).state == SyncingState::Syncing ==> forall|j: int|
                0 <= j < final(self).peers@.len() ==> ((#[trigger] final(self).peers@[j].1)@.len()
                    > 0 || !final(self).spec_can_emit()),
    {
        if !matches!(self.state, SyncingState::Syncing) {
            // The chain is not being synced.
            return ;
        }

        let n = self.peers.len();
        let mut i: usize = 0;
        let mut sent: usize = 0;
        while i < n
            invariant
                self.wf(),
                old(self).wf(),
                old(network).request_id + old(self).peers@.len() <= u32::MAX,
                old(self).state == SyncingState::Syncing,
                n == self.peers@.len(),
                n == old(self).peers@.len(),
                i <= n,
                sent <= i,
                self.id == old(self).id,
                self.state == old(self).state,
                self.start_epoch == old(self).start_epoch,
                self.target_head_slot == old(self).target_head_slot,
                self.target_head_root == old(self).target_head_root,
                self.to_be_downloaded.0 >= old(self).to_be_downloaded.0,
                forall|k: int|
                    0 <= k < n ==> (#[trigger] self.peers@[k].0)@ == old(self).peers@[k].0@,
                forall|k: int|
                    0 <= k < n ==> ((#[trigger] self.peers@[k].1)@ == old(self).peers@[k].1@ || (
                    old(self).peers@[k].1@.len() == 0 && self.peers@[k].1@.len() == 1)),
                forall|j: int| 0 <= j < i ==> (#[trigger] self.peers@[j].1)@.len() > 0,
                forall|j: int|
                    i <= j < n ==> (#[trigger] self.peers@[j].1)@ == old(self).peers@[j].1@,
                forall|j: int|
                    0 <= j < i && (#[trigger] old(self).peers@[j].1)@.len() == 0
                        ==> SyncingChain::spec_window_message_to(
                        *old(network),
                        *network,
                        self.peers@[j].0@,
                    ),
                network.request_id >= old(network).request_id,
                network.request_id - old(network).request_id <= sent,
                network.outbox@.len() >= old(network).outbox@.len(),
                network.outbox@.subrange(0, old(network).outbox@.len() as int) == old(
                    network,
                ).outbox@,
                forall|k: int|
                    old(network).outbox@.len() <= k < network.outbox@.len() ==> (
                    #[trigger] network.outbox@[k]) matches NetworkMessage::SendRequest {
                        request: Request::BlocksByRange(_),
                        request_id: ApplicationRequestId::Sync(SyncRequestId::RangeSync { .. }),
                        ..
                    },
                forall|k: int|
                    old(network).outbox@.len() <= k < network.outbox@.len()
                        ==> SyncingChain::spec_assigned_window_message(
                        old(self).peers@,
                        self.peers@,
                        #[trigger] network.outbox@[k],
                    ),
                forall|k: int|
                    old(network).outbox@.len() <= k < network.outbox@.len()
                        ==> crate::network::spec_request_start_slot(#[trigger] network.outbox@[k])
                        + EPOCHS_PER_BATCH * SLOTS_PER_EPOCH <= self.to_be_downloaded.0
                        * SLOTS_PER_EPOCH + 1,
                forall|k1: int, k2: int|
                    old(network).outbox@.len() <= k1 < k2 < network.outbox@.len()
                        ==> crate::network::spec_request_start_slot(
                        #[trigger] network.outbox@[k1],
                    ) < crate::network::spec_request_start_slot(#[trigger] network.outbox@[k2]),
            decreases n - i,
        {
            if self.peers[i].1.len() == 0 {
                match self.next_batch() {
                    Some(epoch) => {
                        // Record the window against the peer, then request it.
                        let ghost pre_peers = self.peers@;
                        let (pid, mut assigned) = self.peers.remove(i);
                        assigned.push(epoch);
                        self.peers.insert(i, (pid, assigned));
                        proof {
                            assert(self.peers@ =~= pre_peers.update(
                                i as int,
                                self.peers@[i as int],
                            ));
                            assert(self.batches@[self.batches@.len() - 1].0 == epoch);
                            assert(self.spec_has_batch(epoch));
                        }
                        let ghost pre_net = *network;
                        self.send_batch(network, &self.peers[i].0, epoch);
                        sent = sent + 1;
                        proof {
                            assert(network.outbox@.len() == pre_net.outbox@.len() + 1);
                            assert(forall|k: int|
                                0 <= k < pre_net.outbox@.len() ==> (#[trigger] network.outbox@[k])
                                    == network.outbox@.subrange(0, pre_net.outbox@.len() as int)[k]);
                            assert(forall|k: int|
                                0 <= k < pre_net.outbox@.len() ==> (#[trigger] network.outbox@[k])
                                    == pre_net.outbox@[k]);
                            assert(network.outbox@.subrange(
                                0,
                                old(network).outbox@.len() as int,
                            ) =~= old(network).outbox@);
                            // The just-queued message is the window assigned
                            // to peer i.
                            let m = network.outbox@.len() - 1;
                            assert(network.outbox@[m] == network.outbox@.last());
                            assert(old(self).peers@[i as int].1@.len() == 0);
                            assert(self.peers@[i as int].1@.len() == 1);
                            assert(self.peers@[i as int].1@[0] == epoch);
                            assert(self.peers@[i as int].0@ == old(self).peers@[i as int].0@);
                            assert(crate::network::spec_request_start_slot(network.outbox@[m])
                                == epoch.0 * SLOTS_PER_EPOCH + 1);
                            assert(self.to_be_downloaded.0 == epoch.0 + EPOCHS_PER_BATCH);
                            assert((epoch.0 + EPOCHS_PER_BATCH) * SLOTS_PER_EPOCH == epoch.0
                                * SLOTS_PER_EPOCH + EPOCHS_PER_BATCH * SLOTS_PER_EPOCH)
                                by (nonlinear_arith);
                            assert(forall|j: int|
                                0 <= j < pre_peers.len() && j != i ==> (#[trigger] self.peers@[j])
                                    == pre_peers[j]);
                            assert(crate::network::spec_request_peer(network.outbox@[m])
                                == self.peers@[i as int].0@);
                            assert(SyncingChain::spec_window_message_to(
                                *old(network),
                                *network,
                                self.peers@[i as int].0@,
                            ));
                            assert forall|j: int|
                                0 <= j < i + 1 && (#[trigger] old(self).peers@[j].1)@.len()
                                    == 0 implies SyncingChain::spec_window_message_to(
                                *old(network),
                                *network,
                                self.peers@[j].0@,
                            ) by {
                                if j < i as int {
                                    assert(SyncingChain::spec_window_message_to(
                                        *old(network),
                                        pre_net,
                                        pre_peers[j].0@,
                                    ));
                                    let k0 = choose|k: int|
                                        old(network).outbox@.len() <= k < pre_net.outbox@.len()
                                            && crate::network::spec_request_peer(
                                            #[trigger] pre_net.outbox@[k],
                                        ) == pre_peers[j].0@;
                                    assert(network.outbox@[k0] == pre_net.outbox@[k0]);
                                    assert(self.peers@[j] == pre_peers[j]);
                                }
                            }
                            assert forall|k: int|
                                old(network).outbox@.len() <= k
                                    < network.outbox@.len() implies SyncingChain::spec_assigned_window_message(
                                old(self).peers@,
                                self.peers@,
                                #[trigger] network.outbox@[k],
                            ) by {
                                if k < pre_net.outbox@.len() {
                                    assert(network.outbox@[k] == pre_net.outbox@[k]);
                                    assert(SyncingChain::spec_assigned_window_message(
                                        old(self).peers@,
                                        pre_peers,
                                        pre_net.outbox@[k],
                                    ));
                                    let j0 = choose|j: int|
                                        {
                                            &&& 0 <= j < pre_peers.len()
                                            &&& 0 <= j < old(self).peers@.len()
                                            &&& old(self).peers@[j].1@.len() == 0
                                            &&& (#[trigger] pre_peers[j].1)@.len() == 1
                                            &&& crate::network::spec_request_peer(
                                                pre_net.outbox@[k],
                                            ) == pre_peers[j].0@
                                            &&& crate::network::spec_request_start_slot(
                                                pre_net.outbox@[k],
                                            ) == pre_peers[j].1@[0].0 * SLOTS_PER_EPOCH + 1
                                            &&& crate::network::spec_request_count(
                                                pre_net.outbox@[k],
                                            ) == EPOCHS_PER_BATCH * SLOTS_PER_EPOCH
                                        };
                                    assert(j0 != i as int);
                                    assert(self.peers@[j0] == pre_peers[j0]);
                                } else {
                                    assert(k == network.outbox@.len() - 1);
                                    assert(0 <= i < self.peers@.len());
                                    assert(old(self).peers@[i as int].1@.len() == 0);
                                    assert(self.peers@[i as int].1@.len() == 1);
                                    assert(crate::network::spec_request_peer(network.outbox@[k])
                                        == self.peers@[i as int].0@);
                                    assert(crate::network::spec_request_start_slot(
                                        network.outbox@[k],
                                    ) == self.peers@[i as int].1@[0].0 * SLOTS_PER_EPOCH + 1);
                                    assert(crate::network::spec_request_count(network.outbox@[k])
                                        == EPOCHS_PER_BATCH * SLOTS_PER_EPOCH);
                                }
                            }
                        }
                    },
                    None => {
                        proof {
                            assert(!self.spec_can_emit());
                        }
                        // No more batches: simply stop.
                        return ;
                    },
                }
            }
            i = i + 1;
        }
    }

    /// Add a peer to the chain. If the peer has no outstanding batch, batch
    /// requesting is kicked off for the whole chain (which assigns windows
    /// only while the chain is syncing).
    pub fn add_peer(&mut self, network: &mut SyncNetworkContext, peer_id: PeerId)
        requires
            old(self).wf(),
            old(network).request_id + old(self).peers@.len() + 1 <= u32::MAX,
        ensures
            final(self).wf(),
            final(self).spec_has_peer(peer_id@),
            final(self).id == old(self).id,
            final(self).state == old(self).state,
            final(self).start_epoch == old(self).start_epoch,
            final(self).target_head_slot == old(self).target_head_slot,
            final(self).target_head_root == old(self).target_head_root,
            final(self).to_be_downloaded.0 >= old(self).to_be_downloaded.0,
            final(self).peers@.len() == old(self).peers@.len() + if old(self).spec_has_peer(
                peer_id@,
            ) {
                0int
            } else {
                1int
            },
            forall|k: int|
                0 <= k < old(self).peers@.len() ==> (#[trigger] final(self).peers@[k].0)@ == old(
                    self,
                ).peers@[k].0@,
            forall|k: int|
                0 <= k < old(self).peers@.len() ==> ((#[trigger] final(self).peers@[k].1)@ == old(
                    self,
                ).peers@[k].1@ || (old(self).peers@[k].1@.len() == 0 && final(self).peers@[k].1@.len() == 1)),
            !old(self).spec_has_peer(peer_id@) ==> final(self).peers@.last().0@ == peer_id@
                && final(self).peers@.last().1@.len() <= 1,
            old(self).spec_peer_has_outstanding(peer_id@) ==> *final(self) == *old(self)
                && *final(network) == *old(network),
            (old(self).state == SyncingState::Syncing && !old(self).spec_peer_has_outstanding(
                peer_id@,
            )) ==> forall|j: int|
                0 <= j < final(self).peers@.len() ==> ((#[trigger] final(self).peers@[j].1)@.len()
                    > 0 || !final(self).spec_can_emit()),
            final(network).request_id >= old(network).request_id,
            final(network).request_id - old(network).request_id <= old(self).peers@.len() + 1,
            final(network).outbox@.len() >= old(network).outbox@.len(),
            final(network).outbox@.subrange(0, old(network).outbox@.len() as int) == old(
                network,
            ).outbox@,
            forall|k: int|
                old(network).outbox@.len() <= k < final(network).outbox@.len() ==> (
                #[trigger] final(network).outbox@[k]) matches NetworkMessage::SendRequest {
                    request: Request::BlocksByRange(_),
                    request_id: ApplicationRequestId::Sync(SyncRequestId::RangeSync { .. }),
                    ..
                },
    {
        let n = self.peers.len();
        let mut i: usize = 0;
        while i < n
            invariant
                *self == *old(self),
                *network == *old(network),
                old(self).wf(),
                old(network).request_id + old(self).peers@.len() + 1 <= u32::MAX,
                n == self.peers@.len(),
                i <= n,
                forall|j: int| 0 <= j < i ==> (#[trigger] self.peers@[j].0)@ != peer_id@,
            decreases n - i,
        {
            if &self.peers[i].0 == &peer_id {
                proof {
                    assert(old(self).spec_has_peer(peer_id@));
                    // With unique peers, this index is the only one that can
                    // carry the id.
                    assert forall|j: int|
                        0 <= j < old(self).peers@.len() && (#[trigger] old(self).peers@[j].0)@
                            == peer_id@ implies j == (i as int) by {
                        if j < i as int {
                            assert(old(self).peers@[j].0@ != old(self).peers@[i as int].0@);
                        } else if (i as int) < j {
                            assert(old(self).peers@[i as int].0@ != old(self).peers@[j].0@);
                        }
                    }
                }
                // The peer is already part of the chain; only a peer with no
                // outstanding batch triggers requesting.
                if self.peers[i].1.len() == 0 {
                    self.request_batches(network);
                }
                proof {
                    assert(self.peers@[i as int].0@ == peer_id@);
                    assert(self.spec_has_peer(peer_id@));
                }
                return ;
            }
            i = i + 1;
        }

        // A new peer: add it with no outstanding batches and start
        // requesting from it.
        proof {
            assert(!old(self).spec_has_peer(peer_id@));
        }
        self.peers.push((peer_id, Vec::new()));
        proof {
            assert(self.peers@[n as int].0@ == peer_id@);
            assert(forall|k: int| 0 <= k < n ==> (#[trigger] self.peers@[k]) == old(self).peers@[k]);
            assert(self.wf());
        }
        let ghost mid_peers = self.peers@;
        self.request_batches(network);
        proof {
            assert(self.peers@[n as int].0@ == peer_id@);
            assert(self.spec_has_peer(peer_id@));
            assert(self.peers@.last().0@ == peer_id@);
            assert(mid_peers[n as int].1@.len() == 0);
            assert(self.peers@.last().1@ == mid_peers[n as int].1@ || self.peers@.last().1@.len()
                == 1);
        }
    }

    /// Begin (or continue) syncing this chain: advance the validated start
    /// to the local finalized epoch, mark the chain as syncing, and hand out
    /// batch windows to its idle peers.
    pub fn start_syncing(&mut self, network: &mut SyncNetworkContext, local_finalized_epoch: Epoch)
        requires
            old(self).wf(),
            old(network).request_id + old(self).peers@.len() <= u32::MAX,
        ensures
            final(self).wf(),
            final(self).state == SyncingState::Syncing,
            final(self).start_epoch.0 == if local_finalized_epoch.0 > old(self).start_epoch.0 {
                local_finalized_epoch.0
            } else {
                old(self).start_epoch.0
            },
            final(self).id == old(self).id,
            final(self).target_head_slot == old(self).target_head_slot,
            final(self).target_head_root == old(self).target_head_root,
            final(self).to_be_downloaded.0 >= old(self).to_be_downloaded.0,
            SyncingChain::spec_batch_dispatch(
                old(self).peers@,
                final(self).peers@,
                *old(network),
                *final(network),
            ),
            // Once syncing, no peer is left idle unless the windows ran out.
            forall|j: int|
                0 <= j < final(self).peers@.len() ==> ((#[trigger] final(self).peers@[j].1)@.len()
                    > 0 || !final(self).spec_can_emit()),
    {
        self.advance_chain(local_finalized_epoch);
        self.state = SyncingState::Syncing;
        self.request_batches(network);
    }

    /// Raise `start_epoch` to the local finalized epoch if that is higher.
    /// The chain segment's start is monotonic: it never regresses.
    pub fn advance_chain(&mut self, local_finalized_epoch: Epoch)
        ensures
            final(self).start_epoch.0 == if local_finalized_epoch.0 > old(self).start_epoch.0 {
                local_finalized_epoch.0
            } else {
                old(self).start_epoch.0
            },
            final(self).start_epoch.0 >= old(self).start_epoch.0,
            final(self).id == old(self).id,
            final(self).state == old(self).state,
            final(self).target_head_slot == old(self).target_head_slot,
            final(self).target_head_root == old(self).target_head_root,
            final(self).peers == old(self).peers,
            final(self).to_be_downloaded == old(self).to_be_downloaded,
            final(self).batches == old(self).batches,
            old(self).wf() ==> final(self).wf(),
    {
        // Make sure this epoch produces an advancement.
        if local_finalized_epoch.0 <= self.start_epoch.0 {
            return ;
        }
        self.start_epoch = local_finalized_epoch;
    }
}

} // verus!
