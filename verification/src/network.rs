//! Network-service level types: request identifiers that correlate responses
//! with the application call that asked for them, and the messages the sync
//! layer hands back to the network service.

use vstd::prelude::*;

use crate::rpc::{BlocksByRangeRequest, RequestType};
use crate::sync::SyncRequestId;
use crate::types::PeerId;

verus! {

/// Composite trait for a request id.
pub trait ReqId: Send + 'static + core::fmt::Debug + Copy + Clone {

}

impl<T> ReqId for T where T: Send + 'static + core::fmt::Debug + Copy + Clone {

}

/// An application-level request id: which upper-layer component asked, and
/// its own correlation id.
#[derive(Debug, Clone, Copy, PartialEq, Eq, Structural)]
pub enum ApplicationRequestId {
    Sync(SyncRequestId),
    Router,
}

/// A request an upper layer can send through the network service.
#[derive(Debug, Clone, Copy, PartialEq, Eq, Structural)]
pub enum Request {
    BlocksByRange(BlocksByRangeRequest),
}

impl Request {
    pub open spec fn spec_as_request_type(self) -> RequestType {
        match self {
            Request::BlocksByRange(r) => RequestType::BlocksByRange(r),
        }
    }

    /// The wire request this application request becomes.
    pub fn as_request_type(&self) -> (r: RequestType)
        ensures
            r == self.spec_as_request_type(),
    {
        match self {
            Request::BlocksByRange(r) => RequestType::BlocksByRange(*r),
        }
    }
}

/// A message sent to the network service.
#[derive(Debug)]
pub enum NetworkMessage {
    SendRequest { peer_id: PeerId, request: Request, request_id: ApplicationRequestId },
}

/// The first slot of the block range a network message asks for.
pub open spec fn spec_request_start_slot(message: NetworkMessage) -> int {
    match message {
        NetworkMessage::SendRequest { request: Request::BlocksByRange(r), .. } => r.start_slot
            as int,
    }
}

/// How many slots the block range a network message asks for covers.
pub open spec fn spec_request_count(message: NetworkMessage) -> int {
    match message {
        NetworkMessage::SendRequest { request: Request::BlocksByRange(r), .. } => r.count as int,
    }
}

/// The peer a network message is addressed to.
pub open spec fn spec_request_peer(message: NetworkMessage) -> Seq<u8> {
    match message {
        NetworkMessage::SendRequest { peer_id, .. } => peer_id@,
    }
}

} // verus!
