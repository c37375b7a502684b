//! Protocol identification for the request/response protocol: the ASCII
//! protocol-id strings of the form
//! `/eth2/beacon_chain/req/<message-name>/<schema-version>/<encoding>`
//! offered during substream negotiation, and the protocol's timing and size
//! limits.

use vstd::prelude::*;
use vstd::string::StringExecFns;

use crate::rpc::RequestType;

verus! {

/// Seconds to wait for the first bytes of a request once a protocol has been
/// established, before the stream is terminated.
pub const REQUEST_TIMEOUT_SECS: u64 = 15;

/// Seconds an inbound substream read may sit idle before it is aborted.
pub const READ_IDLE_TIMEOUT_SECS: u64 = 5;

/// Largest RPC message accepted, in bytes.
pub const MAX_RPC_SIZE: usize = 10 * 1_048_576;

/// The common prefix of every protocol id.
pub fn protocol_prefix() -> (s: &'static str)
    ensures
        s@ == "/eth2/beacon_chain/req"@,
{
    "/eth2/beacon_chain/req"
}

/// An RPC message kind with a protocol id of its own.
#[derive(Clone, Copy, Debug, PartialEq, Eq, Structural)]
pub enum Protocol {
    Status,
    Goodbye,
    BlocksByRange,
}

impl Protocol {
    pub open spec fn spec_name(self) -> Seq<char> {
        match self {
            Protocol::Status => "status"@,
            Protocol::Goodbye => "goodbye"@,
            Protocol::BlocksByRange => "beacon_blocks_by_range"@,
        }
    }

    /// The message name that appears inside the protocol id.
    pub fn name(&self) -> (s: &'static str)
        ensures
            s@ == self.spec_name(),
    {
        match self {
            Protocol::Status => "status",
            Protocol::Goodbye => "goodbye",
            Protocol::BlocksByRange => "beacon_blocks_by_range",
        }
    }
}

/// The schema version that appears inside the protocol id.
#[derive(Clone, Copy, Debug, PartialEq, Eq, Structural)]
pub enum SchemaVersion {
    V1,
    V2,
}

impl SchemaVersion {
    pub open spec fn spec_name(self) -> Seq<char> {
        match self {
            SchemaVersion::V1 => "1"@,
            SchemaVersion::V2 => "2"@,
        }
    }

    pub fn name(&self) -> (s: &'static str)
        ensures
            s@ == self.spec_name(),
    {
        match self {
            SchemaVersion::V1 => "1",
            SchemaVersion::V2 => "2",
        }
    }
}

/// The wire encoding that appears inside the protocol id.
#[derive(Clone, Copy, Debug, PartialEq, Eq, Structural)]
pub enum Encoding {
    /// SSZ binary encoding, Snappy-compressed frames.
    SSZSnappy,
}

impl Encoding {
    pub open spec fn spec_name(self) -> Seq<char> {
        match self {
            Encoding::SSZSnappy => "ssz_snappy"@,
        }
    }

    pub fn name(&self) -> (s: &'static str)
        ensures
            s@ == self.spec_name(),
    {
        match self {
            Encoding::SSZSnappy => "ssz_snappy",
        }
    }
}

/// The characters of the protocol id for a message kind, version and
/// encoding: `<prefix>/<message-name>/<schema-version>/<encoding>`.
pub open spec fn spec_protocol_id(
    protocol: Protocol,
    schema_version: SchemaVersion,
    encoding: Encoding,
) -> Seq<char> {
    "/eth2/beacon_chain/req"@ + "/"@ + protocol.spec_name() + "/"@ + schema_version.spec_name()
        + "/"@ + encoding.spec_name()
}

/// One negotiable protocol: a message kind, schema version and encoding,
/// together with the exact id string offered on the wire.
#[derive(Debug)]
pub struct ProtocolId {
    pub protocol: Protocol,
    pub schema_version: SchemaVersion,
    pub encoding: Encoding,
    pub protocol_id: String,
}

impl ProtocolId {
    pub fn new(protocol: Protocol, schema_version: SchemaVersion, encoding: Encoding) -> (p:
        ProtocolId)
        ensures
            p.protocol == protocol,
            p.schema_version == schema_version,
            p.encoding == encoding,
            p.protocol_id@ == spec_protocol_id(protocol, schema_version, encoding),
    {
        let mut id = String::from_str(protocol_prefix());
        id.append("/");
        id.append(protocol.name());
        id.append("/");
        id.append(schema_version.name());
        id.append("/");
        id.append(encoding.name());

        ProtocolId { protocol, schema_version, encoding, protocol_id: id }
    }

    /// The id string offered during negotiation.
    pub fn as_str(&self) -> (s: &str)
        ensures
            s@ == self.protocol_id@,
    {
        self.protocol_id.as_str()
    }
}

/// The protocols we accept on inbound substreams, in the order they are
/// offered.
pub fn supported_inbound_protocols() -> (v: Vec<ProtocolId>)
    ensures
        v@.len() == 4,
        v@[0].protocol == Protocol::Status && v@[0].schema_version == SchemaVersion::V1,
        v@[1].protocol == Protocol::Goodbye && v@[1].schema_version == SchemaVersion::V1,
        v@[2].protocol == Protocol::BlocksByRange && v@[2].schema_version == SchemaVersion::V2,
        v@[3].protocol == Protocol::BlocksByRange && v@[3].schema_version == SchemaVersion::V1,
        forall|i: int| 0 <= i < 4 ==> (#[trigger] v@[i].encoding) == Encoding::SSZSnappy,
        forall|i: int|
            0 <= i < 4 ==> (#[trigger] v@[i].protocol_id@) == spec_protocol_id(
                v@[i].protocol,
                v@[i].schema_version,
                v@[i].encoding,
            ),
{
    let mut v: Vec<ProtocolId> = Vec::new();
    v.push(ProtocolId::new(Protocol::Status, SchemaVersion::V1, Encoding::SSZSnappy));
    v.push(ProtocolId::new(Protocol::Goodbye, SchemaVersion::V1, Encoding::SSZSnappy));
    v.push(ProtocolId::new(Protocol::BlocksByRange, SchemaVersion::V2, Encoding::SSZSnappy));
    v.push(ProtocolId::new(Protocol::BlocksByRange, SchemaVersion::V1, Encoding::SSZSnappy));
    v
}

/// The protocols offered when opening an outbound substream for this
/// request: the message's own protocol ids, newest schema first. Kinds
/// outside the core wire scope offer nothing, so their negotiation fails
/// explicitly rather than sending on another message's protocol.
pub fn supported_outbound_protocols(request: &RequestType) -> (v: Vec<ProtocolId>)
    ensures
        forall|i: int| 0 <= i < v@.len() ==> (#[trigger] v@[i].encoding) == Encoding::SSZSnappy,
        forall|i: int|
            0 <= i < v@.len() ==> (#[trigger] v@[i].protocol_id@) == spec_protocol_id(
                v@[i].protocol,
                v@[i].schema_version,
                v@[i].encoding,
            ),
        match request {
            RequestType::Status(_) => v@.len() == 1 && v@[0].protocol == Protocol::Status
                && v@[0].schema_version == SchemaVersion::V1,
            RequestType::Goodbye(_) => v@.len() == 1 && v@[0].protocol == Protocol::Goodbye
                && v@[0].schema_version == SchemaVersion::V1,
            RequestType::BlocksByRange(_) => v@.len() == 2 && v@[0].protocol
                == Protocol::BlocksByRange && v@[0].schema_version == SchemaVersion::V2
                && v@[1].protocol == Protocol::BlocksByRange && v@[1].schema_version
                == SchemaVersion::V1,
            RequestType::Ping => v@.len() == 0,
            RequestType::MetaData => v@.len() == 0,
        },
{
    let mut v: Vec<ProtocolId> = Vec::new();
    match request {
        RequestType::Status(_) => {
            v.push(ProtocolId::new(Protocol::Status, SchemaVersion::V1, Encoding::SSZSnappy));
        },
        RequestType::Goodbye(_) => {
            v.push(ProtocolId::new(Protocol::Goodbye, SchemaVersion::V1, Encoding::SSZSnappy));
        },
        RequestType::BlocksByRange(_) => {
            v.push(
                ProtocolId::new(Protocol::BlocksByRange, SchemaVersion::V2, Encoding::SSZSnappy),
            );
            v.push(
                ProtocolId::new(Protocol::BlocksByRange, SchemaVersion::V1, Encoding::SSZSnappy),
            );
        },
        RequestType::Ping => {
            // Out of the core wire scope: nothing to offer.
        },
        RequestType::MetaData => {
            // Out of the core wire scope: nothing to offer.
        },
    }
    v
}

} // verus!
