//! The STATUS handshake payload and the relevance decision: whether a remote
//! peer is on a compatible, comparably-advanced chain worth keeping a
//! connection with.

use vstd::prelude::*;

use crate::types::{Epoch, Root, Slot};

verus! {

/// The 4-byte fork digest carried in a STATUS message and in contact records.
/// Peers on an incompatible protocol fork carry a different digest.
#[derive(Clone, Copy, Debug, PartialEq, Eq, Structural)]
pub struct ForkDigest {
    pub b0: u8,
    pub b1: u8,
    pub b2: u8,
    pub b3: u8,
}

impl ForkDigest {
    pub fn new(b0: u8, b1: u8, b2: u8, b3: u8) -> (d: ForkDigest)
        ensures
            d == (ForkDigest { b0, b1, b2, b3 }),
    {
        ForkDigest { b0, b1, b2, b3 }
    }
}

/// The STATUS request/response handshake message.
#[derive(Clone, Copy, Debug, PartialEq, Eq, Structural)]
pub struct StatusMessage {
    /// The node's fork digest.
    pub fork_digest: ForkDigest,
    /// `state.finalized_checkpoint.root` for the state of the head block
    /// (the zero root for the genesis finalized checkpoint).
    pub finalized_root: Root,
    /// `state.finalized_checkpoint.epoch` for the state of the head block.
    pub finalized_epoch: Epoch,
    /// The root of the current head block.
    pub head_root: Root,
    /// The slot of the block corresponding to `head_root`.
    pub head_slot: Slot,
}

/// A remote status is relevant exactly when the remote is on our fork and its
/// head slot does not lie ahead of our clock (a head from the future means
/// mismatched system clocks or genesis time).
pub open spec fn spec_is_relevant(
    local: StatusMessage,
    remote: StatusMessage,
    current_slot: Slot,
) -> bool {
    local.fork_digest == remote.fork_digest && remote.head_slot.0 <= current_slot.0
}

/// Decide whether the peer that sent `remote` is relevant to us.
/// `current_slot` is the slot right now according to our own clock.
pub fn is_relevant(local: &StatusMessage, remote: &StatusMessage, current_slot: Slot) -> (r: bool)
    ensures
        r == spec_is_relevant(*local, *remote, current_slot),
{
    if local.fork_digest != remote.fork_digest {
        // Incompatible forks.
        return false;
    }

    if remote.head_slot.0 > current_slot.0 {
        // Different system clocks or genesis time.
        return false;
    }

    true
}

/// Law: judged with the local record's own head slot as the clock, relevance
/// is false exactly when the fork digests differ or the remote head slot is
/// ahead of the local one; and a digest mismatch alone decides the outcome,
/// whatever clock is used.
pub proof fn lemma_relevance_determinism(local: StatusMessage, remote: StatusMessage, clock: Slot)
    ensures
        !spec_is_relevant(local, remote, local.head_slot) <==> (local.fork_digest
            != remote.fork_digest || remote.head_slot.0 > local.head_slot.0),
        local.fork_digest != remote.fork_digest ==> !spec_is_relevant(local, remote, clock),
{
}

/// The finalized root a STATUS message must carry: the real checkpoint root,
/// except that the genesis checkpoint is aliased to the zero root.
pub open spec fn spec_status_finalized_root(
    finalized_root: Root,
    finalized_epoch: Epoch,
    genesis_epoch: Epoch,
) -> Root {
    if finalized_epoch == genesis_epoch {
        Root::spec_zero()
    } else {
        finalized_root
    }
}

/// Build the local STATUS message from the chain view's values: the current
/// fork digest, the finalized checkpoint, and the head block. The genesis
/// checkpoint root is aliased to the zero root, as the wire protocol asks.
pub fn status_message(
    fork_digest: ForkDigest,
    finalized_root: Root,
    finalized_epoch: Epoch,
    head_root: Root,
    head_slot: Slot,
    genesis_epoch: Epoch,
) -> (s: StatusMessage)
    ensures
        s.fork_digest == fork_digest,
        s.finalized_root == spec_status_finalized_root(
            finalized_root,
            finalized_epoch,
            genesis_epoch,
        ),
        s.finalized_epoch == finalized_epoch,
        s.head_root == head_root,
        s.head_slot == head_slot,
{
    let root = if finalized_epoch.0 == genesis_epoch.0 {
        Root::zero()
    } else {
        finalized_root
    };

    StatusMessage {
        fork_digest,
        finalized_root: root,
        finalized_epoch,
        head_root,
        head_slot,
    }
}

} // verus!
