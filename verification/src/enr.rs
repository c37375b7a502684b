//! The `eth2` field of a contact record: the fork data a node advertises.
//! The field's raw bytes are read out of the record opaquely; the RLP
//! framing and the fixed-size SSZ layout inside it are decoded by verified
//! code.

use vstd::prelude::*;
use vstd::string::StringExecFns;

use crate::discovery::Enr;
use crate::status::ForkDigest;

verus! {

/// A four-byte fork version.
#[derive(Clone, Copy, Debug, PartialEq, Eq, Structural)]
pub struct ForkVersion {
    pub b0: u8,
    pub b1: u8,
    pub b2: u8,
    pub b3: u8,
}

/// The fork data a node advertises in its contact record: its current fork
/// digest, and the next fork it knows of.
#[derive(Clone, Copy, Debug, PartialEq, Eq, Structural)]
pub struct EnrForkId {
    pub fork_digest: ForkDigest,
    pub next_fork_version: ForkVersion,
    pub next_fork_epoch: u64,
}

/// The unsigned value of 8 bytes read little-endian.
pub open spec fn spec_u64_le(b: Seq<u8>) -> int {
    b[0] + 0x100 * (b[1] + 0x100 * (b[2] + 0x100 * (b[3] + 0x100 * (b[4] + 0x100 * (b[5] + 0x100
        * (b[6] + 0x100 * b[7]))))))
}

/// The fork id encoded in 16 SSZ bytes: the fork digest, the next fork
/// version, and the next fork epoch as a little-endian integer.
pub open spec fn spec_fork_id_of_bytes(b: Seq<u8>) -> EnrForkId {
    EnrForkId {
        fork_digest: ForkDigest { b0: b[0], b1: b[1], b2: b[2], b3: b[3] },
        next_fork_version: ForkVersion { b0: b[4], b1: b[5], b2: b[6], b3: b[7] },
        next_fork_epoch: spec_u64_le(b.skip(8)) as u64,
    }
}

/// Decode the fixed-size SSZ form of a fork id: exactly 16 bytes.
pub fn fork_id_from_ssz_bytes(bytes: &Vec<u8>) -> (r: Option<EnrForkId>)
    ensures
        bytes@.len() == 16 ==> r == Some(spec_fork_id_of_bytes(bytes@)),
        bytes@.len() != 16 ==> r is None,
{
    if bytes.len() != 16 {
        return None;
    }
    let epoch: u64 = bytes[8] as u64 + 0x100
        * (bytes[9] as u64 + 0x100
        * (bytes[10] as u64 + 0x100
        * (bytes[11] as u64 + 0x100
        * (bytes[12] as u64 + 0x100
        * (bytes[13] as u64 + 0x100
        * (bytes[14] as u64 + 0x100 * (bytes[15] as u64)))))));
    proof {
        assert(epoch == spec_u64_le(bytes@.skip(8)));
    }
    Some(
        EnrForkId {
            fork_digest: ForkDigest { b0: bytes[0], b1: bytes[1], b2: bytes[2], b3: bytes[3] },
            next_fork_version: ForkVersion {
                b0: bytes[4],
                b1: bytes[5],
                b2: bytes[6],
                b3: bytes[7],
            },
            next_fork_epoch: epoch,
        },
    )
}

/// The payload of an RLP-framed short byte string, if the bytes are exactly
/// one such item: either a single byte below 0x80 standing for itself, or a
/// length prefix 0x80 + n (n < 56) followed by exactly n bytes.
pub open spec fn spec_rlp_payload(b: Seq<u8>) -> Option<Seq<u8>> {
    if b.len() == 1 && b[0] < 0x80 {
        Some(b)
    } else if b.len() >= 1 && 0x80 <= b[0] < 0xb8 && b.len() == 1 + (b[0] - 0x80) {
        Some(b.skip(1))
    } else {
        None
    }
}

/// Strip the RLP framing off a short byte string.
pub fn rlp_byte_string_payload(bytes: &Vec<u8>) -> (r: Option<Vec<u8>>)
    ensures
        match r {
            Some(payload) => spec_rlp_payload(bytes@) == Some(payload@),
            None => spec_rlp_payload(bytes@) is None,
        },
{
    if bytes.len() == 1 && bytes[0] < 0x80 {
        let mut payload: Vec<u8> = Vec::new();
        payload.push(bytes[0]);
        proof {
            assert(payload@ =~= bytes@);
        }
        return Some(payload);
    }
    if bytes.len() >= 1 && bytes[0] >= 0x80 && bytes[0] < 0xb8 {
        let n = (bytes[0] - 0x80) as usize;
        if bytes.len() == 1 + n {
            let mut payload: Vec<u8> = Vec::new();
            let mut i: usize = 1;
            while i < bytes.len()
                invariant
                    1 <= i <= bytes@.len(),
                    payload@ == bytes@.subrange(1, i as int),
                decreases bytes@.len() - i,
            {
                payload.push(bytes[i]);
                proof {
                    assert(payload@ =~= bytes@.subrange(1, i + 1));
                }
                i = i + 1;
            }
            proof {
                assert(bytes@.subrange(1, bytes@.len() as int) =~= bytes@.skip(1));
            }
            return Some(payload);
        }
        return None;
    }
    None
}

/// The raw RLP bytes a contact record stores under its `eth2` key; a fixed
/// datum of the record.
pub uninterp spec fn enr_eth2_raw_of(record: Enr) -> Option<Seq<u8>>;

/// Relies on `enr::Enr::get_raw_rlp`: the raw RLP bytes stored in the
/// record under the `eth2` key, if the record carries one - a fixed datum
/// of the record, named by `enr_eth2_raw_of`.
#[verifier::external_body]
fn enr_eth2_raw(record: &Enr) -> (r: Option<Vec<u8>>)
    ensures
        match r {
            Some(raw) => enr_eth2_raw_of(*record) == Some(raw@),
            None => enr_eth2_raw_of(*record) is None,
        },
{
    record.record.get_raw_rlp(b"eth2").map(|raw| raw.to_vec())
}

/// The fork data a contact record advertises: its `eth2` field must be an
/// RLP byte string holding exactly the 16 SSZ bytes of a fork id.
pub open spec fn spec_eth2_fork_id(record: Enr) -> Option<EnrForkId> {
    match enr_eth2_raw_of(record) {
        Some(raw) => match spec_rlp_payload(raw) {
            Some(payload) => if payload.len() == 16 {
                Some(spec_fork_id_of_bytes(payload))
            } else {
                None
            },
            None => None,
        },
        None => None,
    }
}

/// The fork data a contact record advertises, exactly per
/// `spec_eth2_fork_id`. Fails on a record without the `eth2` field or with
/// a malformed one.
pub fn eth2_fork_id(record: &Enr) -> (r: Result<EnrForkId, String>)
    ensures
        match spec_eth2_fork_id(*record) {
            Some(fork_id) => r matches Ok(f) && f == fork_id,
            None => r is Err,
        },
{
    let raw = match enr_eth2_raw(record) {
        Some(raw) => raw,
        None => {
            return Err(String::from_str("contact record has no eth2 field"));
        },
    };
    let payload = match rlp_byte_string_payload(&raw) {
        Some(payload) => payload,
        None => {
            return Err(String::from_str("eth2 field is not an RLP byte string"));
        },
    };
    match fork_id_from_ssz_bytes(&payload) {
        Some(fork_id) => Ok(fork_id),
        None => Err(String::from_str("eth2 field does not hold 16 bytes of fork data")),
    }
}

} // verus!
