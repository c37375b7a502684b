//! The thin slice of the chain view the library computes itself. The chain
//! itself - states, storage, the clock - is an outside collaborator that
//! supplies plain values (roots, slots, epochs); see `status` for how the
//! local STATUS message is assembled from them.

use vstd::prelude::*;

use crate::types::{Root, Slot};

verus! {

/// The fields of a block header that the networking logic reads.
#[derive(Clone, Copy, Debug, PartialEq, Eq, Structural)]
pub struct BeaconBlock {
    pub slot: Slot,
    pub parent_root: Root,
    pub state_root: Root,
    pub body_root: Root,
}

/// The chain's genesis block: the empty block at the genesis slot, its
/// state root set to the genesis state's tree-hash root, everything else
/// zero.
pub fn genesis_block(genesis_state_root: Root, genesis_slot: Slot) -> (b: BeaconBlock)
    ensures
        b == (BeaconBlock {
            slot: genesis_slot,
            parent_root: Root::spec_zero(),
            state_root: genesis_state_root,
            body_root: Root::spec_zero(),
        }),
{
    BeaconBlock {
        slot: genesis_slot,
        parent_root: Root::zero(),
        state_root: genesis_state_root,
        body_root: Root::zero(),
    }
}

} // verus!
