//! Wraps the channel to the network service for the sync manager: assigns a
//! strictly increasing request id to every outbound sync request and queues a
//! "send this request to this peer" message for the network service to drain.

use vstd::prelude::*;

use crate::network::{ApplicationRequestId, NetworkMessage, Request};
use crate::rpc::BlocksByRangeRequest;
use crate::sync::SyncRequestId;
use crate::types::PeerId;

verus! {

/// The sync manager's outbound side of the network service.
pub struct SyncNetworkContext {
    /// A sequential id for all RPC requests.
    pub request_id: u32,
    /// Messages queued for the network service, oldest first.
    pub outbox: Vec<NetworkMessage>,
}

impl SyncNetworkContext {
    pub fn new() -> (c: SyncNetworkContext)
        ensures
            c.request_id == 0,
            c.outbox@.len() == 0,
    {
        SyncNetworkContext { request_id: 0, outbox: Vec::new() }
    }

    /// Queue a BlocksByRange request to this peer, tagged as a range-sync
    /// request under a fresh id, and return that id.
    pub fn blocks_by_range_request(&mut self, peer_id: &PeerId, request: BlocksByRangeRequest) -> (
        id: u32)
        requires
            old(self).request_id < u32::MAX,
        ensures
            id == old(self).request_id,
            final(self).request_id == old(self).request_id + 1,
            final(self).outbox@.len() == old(self).outbox@.len() + 1,
            final(self).outbox@.subrange(0, old(self).outbox@.len() as int) == old(self).outbox@,
            final(self).outbox@.last() matches NetworkMessage::SendRequest {
                peer_id: p,
                request: r,
                request_id: rid,
            } && p@ == peer_id@ && r == Request::BlocksByRange(request) && rid
                == ApplicationRequestId::Sync(SyncRequestId::RangeSync { id }),
    {
        let id = self.next_id();
        self.outbox.push(
            NetworkMessage::SendRequest {
                peer_id: peer_id.clone(),
                request: Request::BlocksByRange(request),
                request_id: ApplicationRequestId::Sync(SyncRequestId::RangeSync { id }),
            },
        );
        proof {
            assert(self.outbox@.subrange(0, old(self).outbox@.len() as int) =~= old(self).outbox@);
        }
        id
    }

    /// The messages queued so far, in order, leaving the outbox empty. The
    /// network service performs the sends.
    pub fn drain_outbox(&mut self) -> (messages: Vec<NetworkMessage>)
        ensures
            messages@ == old(self).outbox@,
            final(self).outbox@.len() == 0,
            final(self).request_id == old(self).request_id,
    {
        let mut drained: Vec<NetworkMessage> = Vec::new();
        core::mem::swap(&mut drained, &mut self.outbox);
        drained
    }

    fn next_id(&mut self) -> (id: u32)
        requires
            old(self).request_id < u32::MAX,
        ensures
            id == old(self).request_id,
            final(self).request_id == old(self).request_id + 1,
            final(self).outbox@ == old(self).outbox@,
    {
        let id = self.request_id;
        self.request_id = self.request_id + 1;
        id
    }
}

} // verus!
