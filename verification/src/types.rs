//! Plain domain types shared by every component: identities, roots, slots and
//! epochs. They carry exactly the values the networking logic reads, so every
//! contract in the crate can speak about them directly.

use vstd::prelude::*;
use vstd::std_specs::cmp::PartialEqSpec;

verus! {

/// Number of slots in one epoch (mainnet preset).
pub const SLOTS_PER_EPOCH: u64 = 32;

/// A 256-bit root (block root, state root or finalized-checkpoint root),
/// held as four 64-bit words, least significant first.
#[derive(Clone, Copy, Debug, PartialEq, Eq, Structural)]
pub struct Root {
    pub w0: u64,
    pub w1: u64,
    pub w2: u64,
    pub w3: u64,
}

impl Root {
    pub open spec fn spec_zero() -> Root {
        Root { w0: 0, w1: 0, w2: 0, w3: 0 }
    }

    pub fn zero() -> (r: Root)
        ensures
            r == Root::spec_zero(),
    {
        Root { w0: 0, w1: 0, w2: 0, w3: 0 }
    }

    /// A root whose lowest word is `n` and whose other words are zero.
    pub fn from_low_u64_le(n: u64) -> (r: Root)
        ensures
            r == (Root { w0: n, w1: 0, w2: 0, w3: 0 }),
    {
        Root { w0: n, w1: 0, w2: 0, w3: 0 }
    }
}

/// `finalized_root` defaults to the zero root for the genesis finalized
/// checkpoint.
pub fn default_finalized_root() -> (r: Root)
    ensures
        r == Root::spec_zero(),
{
    Root::zero()
}

/// An epoch number.
#[derive(Clone, Copy, Debug, PartialEq, Eq, Structural)]
pub struct Epoch(pub u64);

impl Epoch {
    pub fn new(n: u64) -> (e: Epoch)
        ensures
            e.0 == n,
    {
        Epoch(n)
    }

    /// The first slot of this epoch.
    pub fn start_slot(&self) -> (s: Slot)
        requires
            self.0 * SLOTS_PER_EPOCH <= u64::MAX,
        ensures
            s.0 == self.0 * SLOTS_PER_EPOCH,
    {
        Slot(self.0 * SLOTS_PER_EPOCH)
    }
}

/// A slot number.
#[derive(Clone, Copy, Debug, PartialEq, Eq, Structural)]
pub struct Slot(pub u64);

impl Slot {
    pub fn new(n: u64) -> (s: Slot)
        ensures
            s.0 == n,
    {
        Slot(n)
    }
}

/// The transport protocol of a dialable address.
#[derive(Clone, Copy, Debug, PartialEq, Eq, Structural)]
pub enum Transport {
    Tcp,
    Udp,
}

/// An IP address, version 4 or 6, as its numeric value.
#[derive(Clone, Copy, Debug, PartialEq, Eq, Structural)]
pub enum IpAddress {
    V4(u32),
    V6(u128),
}

/// A dialable endpoint: an IP address, a port, and the transport protocol.
#[derive(Clone, Copy, Debug, PartialEq, Eq, Structural)]
pub struct SocketAddress {
    pub ip: IpAddress,
    pub port: u16,
    pub transport: Transport,
}

/// The identity of a remote peer: the raw bytes of its transport-level peer
/// id (a multihash of the peer's public key).
#[derive(Debug, Eq)]
pub struct PeerId {
    pub bytes: Vec<u8>,
}

impl View for PeerId {
    type V = Seq<u8>;

    open spec fn view(&self) -> Seq<u8> {
        self.bytes@
    }
}

impl PeerId {
    pub fn new(bytes: Vec<u8>) -> (p: PeerId)
        ensures
            p@ == bytes@,
    {
        PeerId { bytes }
    }

    /// The raw byte representation.
    pub fn as_bytes(&self) -> (b: &Vec<u8>)
        ensures
            b@ == self@,
    {
        &self.bytes
    }
}

impl Clone for PeerId {
    fn clone(&self) -> (r: Self)
        ensures
            r@ == self@,
    {
        let bytes = self.bytes.clone();
        proof {
            assert(bytes@ =~= self.bytes@);
        }
        PeerId { bytes }
    }
}

impl PartialEq for PeerId {
    fn eq(&self, other: &Self) -> (r: bool)
    {
        let r = self.bytes == other.bytes;
        proof {
            if self.bytes@ == other.bytes@ {
                assert(self.bytes.eq_spec(&other.bytes));
            }
            if self.bytes.eq_spec(&other.bytes) {
                assert(self.bytes@ =~= other.bytes@);
            }
        }
        r
    }
}

impl vstd::std_specs::cmp::PartialEqSpecImpl for PeerId {
    open spec fn obeys_eq_spec() -> bool {
        true
    }

    open spec fn eq_spec(&self, other: &Self) -> bool {
        self@ == other@
    }
}

} // verus!
