//! Identity mapping: pure, stateless conversions between a node's identity
//! forms - the transport peer id (a multihash of the protobuf-framed public
//! key) and the DHT node id (the Keccak-256 digest of the key's raw
//! coordinates). Nothing is stored; each form is derived on demand.

use vstd::prelude::*;
use vstd::string::StringExecFns;

use crate::types::PeerId;

verus! {

/// The 32-byte Keccak-256 digest of a byte string; a function of the bytes
/// alone.
pub uninterp spec fn keccak256_of(data: Seq<u8>) -> Seq<u8>;

/// Relies on tiny_keccak's `Keccak::v256` hasher: the Keccak-256 digest of
/// the input, 32 bytes, depending on the input bytes alone.
#[verifier::external_body]
fn keccak256(data: &Vec<u8>) -> (r: Vec<u8>)
    ensures
        r@ == keccak256_of(data@),
        r@.len() == 32,
{
    let mut output = [0u8; 32];
    let mut hasher = tiny_keccak::Keccak::v256();
    tiny_keccak::Hasher::update(&mut hasher, data.as_slice());
    tiny_keccak::Hasher::finalize(hasher, &mut output);
    output.to_vec()
}

/// A public key decoded from a peer id's protobuf payload.
#[derive(Debug)]
pub enum DecodedPublicKey {
    /// An uncompressed secp256k1 public key: 65 bytes, a leading tag byte
    /// then the x and y coordinates.
    Secp256k1(Vec<u8>),
    /// An ed25519 public key: its 32 bytes.
    Ed25519(Vec<u8>),
    /// A valid key of a scheme the node does not support.
    Unsupported,
    /// Not a valid protobuf-encoded public key.
    Invalid,
}

/// The uncompressed secp256k1 key inside a protobuf-framed public key, if
/// that is what the bytes decode to; a function of the bytes alone.
pub uninterp spec fn decoded_secp256k1_key(bytes: Seq<u8>) -> Option<Seq<u8>>;

/// The ed25519 key inside a protobuf-framed public key, if that is what the
/// bytes decode to; a function of the bytes alone.
pub uninterp spec fn decoded_ed25519_key(bytes: Seq<u8>) -> Option<Seq<u8>>;

/// Relies on `libp2p_identity::PublicKey::try_decode_protobuf` and the
/// secp256k1/ed25519 key types' byte encodings (65 uncompressed bytes and 32
/// bytes respectively): decodes a protobuf-framed public key into its raw
/// bytes per scheme. The decode is a function of the bytes alone, named per
/// scheme by `decoded_secp256k1_key` and `decoded_ed25519_key`.
#[verifier::external_body]
fn decode_protobuf_public_key(bytes: &Vec<u8>) -> (r: DecodedPublicKey)
    ensures
        match r {
            DecodedPublicKey::Secp256k1(k) => decoded_secp256k1_key(bytes@) == Some(k@)
                && k@.len() == 65,
            DecodedPublicKey::Ed25519(k) => decoded_secp256k1_key(bytes@) is None
                && decoded_ed25519_key(bytes@) == Some(k@) && k@.len() == 32,
            DecodedPublicKey::Unsupported => decoded_secp256k1_key(bytes@) is None
                && decoded_ed25519_key(bytes@) is None,
            DecodedPublicKey::Invalid => decoded_secp256k1_key(bytes@) is None
                && decoded_ed25519_key(bytes@) is None,
        },
{
    match libp2p_identity::PublicKey::try_decode_protobuf(bytes.as_slice()) {
        Err(_) => DecodedPublicKey::Invalid,
        Ok(public_key) => {
            if let Ok(pk) = public_key.clone().try_into_secp256k1() {
                DecodedPublicKey::Secp256k1(pk.to_bytes_uncompressed().to_vec())
            } else if let Ok(pk) = public_key.try_into_ed25519() {
                DecodedPublicKey::Ed25519(pk.to_bytes().to_vec())
            } else {
                DecodedPublicKey::Unsupported
            }
        },
    }
}

/// The transport peer id derived from a compressed secp256k1 public key; a
/// function of the key bytes alone.
pub uninterp spec fn peer_id_of_secp256k1(key: Seq<u8>) -> Seq<u8>;

/// Whether these bytes parse as a compressed secp256k1 public key; a
/// function of the key bytes alone.
pub uninterp spec fn secp256k1_key_valid(key: Seq<u8>) -> bool;

/// Relies on `libp2p_identity::secp256k1::PublicKey::try_from_bytes` and
/// `PeerId::from_public_key`: parses a compressed secp256k1 key and derives
/// the peer id bytes. Both the parse outcome and the derived id are
/// functions of the key bytes alone, named by `secp256k1_key_valid` and
/// `peer_id_of_secp256k1`.
#[verifier::external_body]
fn peer_id_from_secp256k1_bytes(key: &Vec<u8>) -> (r: Option<Vec<u8>>)
    ensures
        r is Some <==> secp256k1_key_valid(key@),
        r matches Some(v) ==> v@ == peer_id_of_secp256k1(key@),
{
    match libp2p_identity::secp256k1::PublicKey::try_from_bytes(key.as_slice()) {
        Err(_) => None,
        Ok(pk) => {
            let public_key: libp2p_identity::PublicKey = pk.into();
            Some(libp2p_identity::PeerId::from(public_key).to_bytes())
        },
    }
}

/// The bytes of `v` from index `from` to the end.
fn bytes_suffix(v: &Vec<u8>, from: usize) -> (r: Vec<u8>)
    requires
        from <= v@.len(),
    ensures
        r@ == v@.skip(from as int),
{
    let mut r: Vec<u8> = Vec::new();
    let n = v.len();
    let mut i: usize = from;
    while i < n
        invariant
            from <= i <= n,
            n == v@.len(),
            r@ == v@.subrange(from as int, i as int),
        decreases n - i,
    {
        r.push(v[i]);
        proof {
            assert(r@ =~= v@.subrange(from as int, i + 1));
        }
        i = i + 1;
    }
    proof {
        assert(v@.subrange(from as int, n as int) =~= v@.skip(from as int));
    }
    r
}

/// The DHT node id a decoded public key derives: the Keccak-256 digest of
/// the key's raw coordinates (the uncompressed secp256k1 key without its tag
/// byte, or the ed25519 key bytes as they stand).
pub open spec fn spec_node_id_of_key(key: DecodedPublicKey) -> Option<Seq<u8>> {
    match key {
        DecodedPublicKey::Secp256k1(k) => Some(keccak256_of(k@.skip(1))),
        DecodedPublicKey::Ed25519(k) => Some(keccak256_of(k@)),
        DecodedPublicKey::Unsupported => None,
        DecodedPublicKey::Invalid => None,
    }
}

/// The node id derived from a decoded public key, exactly per
/// `spec_node_id_of_key`: defined for the supported schemes, 32 bytes.
pub fn node_id_from_public_key(key: &DecodedPublicKey) -> (r: Option<Vec<u8>>)
    requires
        key matches DecodedPublicKey::Secp256k1(k) ==> k@.len() == 65,
    ensures
        match r {
            Some(v) => spec_node_id_of_key(*key) == Some(v@) && v@.len() == 32,
            None => spec_node_id_of_key(*key) is None,
        },
{
    match key {
        DecodedPublicKey::Secp256k1(k) => {
            let coordinates = bytes_suffix(k, 1);
            Some(keccak256(&coordinates))
        },
        DecodedPublicKey::Ed25519(k) => Some(keccak256(k)),
        DecodedPublicKey::Unsupported => None,
        DecodedPublicKey::Invalid => None,
    }
}

/// The DHT node id a peer id derives, if any: the peer id bytes are two
/// multihash length bytes followed by the protobuf framing of the public
/// key, and the node id is the Keccak-256 digest of the key's raw
/// coordinates.
pub open spec fn spec_node_id_of_peer(bytes: Seq<u8>) -> Option<Seq<u8>> {
    if bytes.len() < 2 {
        None
    } else {
        match decoded_secp256k1_key(bytes.skip(2)) {
            Some(k) => Some(keccak256_of(k.skip(1))),
            None => match decoded_ed25519_key(bytes.skip(2)) {
                Some(k) => Some(keccak256_of(k)),
                None => None,
            },
        }
    }
}

/// Derive the DHT node id from a transport peer id, exactly per
/// `spec_node_id_of_peer`. Fails on a peer id that is too short, malformed,
/// or carries an unsupported key scheme.
pub fn peer_id_to_node_id(peer_id: &PeerId) -> (r: Result<Vec<u8>, String>)
    ensures
        match spec_node_id_of_peer(peer_id@) {
            Some(id) => r matches Ok(v) && v@ == id && v@.len() == 32,
            None => r is Err,
        },
{
    let bytes = peer_id.as_bytes();
    if bytes.len() < 2 {
        return Err(String::from_str("peer id too short for a multihash"));
    }

    // Two multihash length bytes, then the protobuf framing of the key.
    let pk_bytes = bytes_suffix(bytes, 2);

    let decoded = decode_protobuf_public_key(&pk_bytes);
    match node_id_from_public_key(&decoded) {
        Some(node_id) => Ok(node_id),
        None => Err(String::from_str("cannot parse a supported public key from the peer id")),
    }
}

/// The public key advertised in a contact record, in compressed form.
#[derive(Debug)]
pub enum ContactPublicKey {
    /// A compressed secp256k1 public key: 33 bytes.
    Secp256k1(Vec<u8>),
    /// An ed25519 public key: its 32 bytes.
    Ed25519(Vec<u8>),
}

/// The compressed secp256k1 key a contact record is signed with, if that is
/// the record's key scheme; a fixed datum of the record.
pub uninterp spec fn enr_secp256k1_key_of(record: crate::discovery::Enr) -> Option<Seq<u8>>;

/// Relies on `enr::Enr::public_key` and the key types' compressed encodings
/// (via `enr::EnrPublicKey::encode`): the raw bytes of the record's public
/// key, 33 bytes for secp256k1 and 32 for ed25519. A record's key is a
/// fixed datum of the record; its secp256k1 form is named by
/// `enr_secp256k1_key_of`.
#[verifier::external_body]
fn enr_public_key_bytes(record: &crate::discovery::Enr) -> (r: ContactPublicKey)
    ensures
        match r {
            ContactPublicKey::Secp256k1(k) => enr_secp256k1_key_of(*record) == Some(k@)
                && k@.len() == 33,
            ContactPublicKey::Ed25519(k) => enr_secp256k1_key_of(*record) is None && k@.len()
                == 32,
        },
{
    match record.record.public_key() {
        enr::CombinedPublicKey::Secp256k1(pk) => {
            ContactPublicKey::Secp256k1(enr::EnrPublicKey::encode(&pk).to_vec())
        },
        enr::CombinedPublicKey::Ed25519(pk) => {
            ContactPublicKey::Ed25519(enr::EnrPublicKey::encode(&pk).to_vec())
        },
    }
}

/// Derive the transport peer id from a contact record's public key. Only
/// secp256k1 records are supported, as only such records are generated and
/// accepted by this node; the id succeeds exactly when the record holds a
/// valid compressed secp256k1 key, and is then the multihash that key
/// derives.
pub fn enr_to_peer_id(record: &crate::discovery::Enr) -> (r: Result<PeerId, String>)
    ensures
        match enr_secp256k1_key_of(*record) {
            Some(key) => {
                &&& r is Ok <==> secp256k1_key_valid(key)
                &&& (r matches Ok(p) ==> p@ == peer_id_of_secp256k1(key))
            },
            None => r is Err,
        },
{
    match enr_public_key_bytes(record) {
        ContactPublicKey::Secp256k1(key) => {
            match peer_id_from_secp256k1_bytes(&key) {
                Some(bytes) => Ok(PeerId::new(bytes)),
                None => Err(String::from_str("contact record holds an invalid secp256k1 key")),
            }
        },
        ContactPublicKey::Ed25519(_) => {
            Err(String::from_str("ed25519 contact records are not supported"))
        },
    }
}

} // verus!
