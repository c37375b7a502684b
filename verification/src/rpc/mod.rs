//! The request/response RPC protocol engine: domain messages, protocol
//! identifiers, the per-connection handler state machine, and the
//! cross-connection behaviour that aggregates handler events.

use vstd::prelude::*;

use crate::rpc::handler::SubstreamId;
use crate::status::StatusMessage;
use crate::types::PeerId;

pub mod behaviour;
pub mod error;
pub mod handler;
pub mod protocol;

verus! {

/// A machine-readable reason carried by a GOODBYE message.
#[derive(Clone, Copy, Debug, PartialEq, Eq, Structural)]
pub enum GoodbyeReason {
    /// The node is shutting down.
    ClientShutdown,
    /// The peer is on an incompatible network or fork.
    IrrelevantNetwork,
    /// The peer misbehaved at the protocol level.
    Fault,
    /// The node holds more peers than it wants.
    TooManyPeers,
    /// No reason given.
    Unknown,
}

/// A request for a contiguous range of blocks, sized in slots.
#[derive(Clone, Copy, Debug, PartialEq, Eq, Structural)]
pub struct BlocksByRangeRequest {
    /// The slot of the first block asked for.
    pub start_slot: u64,
    /// How many slots the range covers.
    pub count: u64,
}

/// A request received from, or sent to, a remote peer.
#[derive(Clone, Copy, Debug, PartialEq, Eq, Structural)]
pub enum RequestType {
    Status(StatusMessage),
    Goodbye(GoodbyeReason),
    BlocksByRange(BlocksByRangeRequest),
    Ping,
    MetaData,
}

impl RequestType {
    /// How many response chunks the sender of this request expects. A
    /// substream is only tracked for responses when this is positive.
    pub open spec fn spec_expected_responses(self) -> u64 {
        match self {
            RequestType::Status(_) => 1,
            RequestType::Goodbye(_) => 0,
            RequestType::BlocksByRange(r) => r.count,
            RequestType::Ping => 1,
            RequestType::MetaData => 1,
        }
    }

    pub fn expected_responses(&self) -> (n: u64)
        ensures
            n == self.spec_expected_responses(),
    {
        match self {
            RequestType::Status(_) => 1,
            RequestType::Goodbye(_) => 0,
            RequestType::BlocksByRange(r) => r.count,
            RequestType::Ping => 1,
            RequestType::MetaData => 1,
        }
    }
}

/// A response we return on an inbound substream.
#[derive(Clone, Copy, Debug, PartialEq, Eq, Structural)]
pub enum Response {
    Status(StatusMessage),
}

/// A successful response received on an outbound substream. Only STATUS
/// responses carry data the core reads; the rest are surfaced so the router
/// can name what it leaves unhandled.
#[derive(Clone, Copy, Debug, PartialEq, Eq, Structural)]
pub enum RpcResponse {
    Status(StatusMessage),
    BlocksByRange,
    Pong,
    MetaData,
}

/// RPC events sent from the RPC behaviour to the behaviour composer.
#[derive(Debug)]
pub enum RpcEvent {
    ReceivedRequest(ReceivedRequest),
    ReceivedResponse(ReceivedResponse),
}

/// A request a remote peer opened on one of our connections.
#[derive(Debug)]
pub struct ReceivedRequest {
    pub peer_id: PeerId,
    pub connection_id: u64,
    pub substream_id: SubstreamId,
    pub request: RequestType,
}

/// A response a remote peer returned on one of our outbound substreams.
#[derive(Debug)]
pub struct ReceivedResponse {
    pub peer_id: PeerId,
    pub response: RpcResponse,
}

} // verus!
