//! The cross-connection RPC behaviour. It turns composer-level calls
//! (send a status, goodbye, request or response to a peer) into instructions
//! addressed to one connection's handler, and turns handler events into
//! upward RPC events.

use vstd::prelude::*;

use crate::network::Request;
use crate::rpc::handler::{HandlerReceived, SubstreamId};
use crate::rpc::{
    GoodbyeReason, ReceivedRequest, ReceivedResponse, RequestType, Response, RpcEvent,
};
use crate::status::StatusMessage;
use crate::types::PeerId;

verus! {

/// An RPC-internal message sent from the behaviour to one handler.
#[derive(Debug)]
pub enum InstructionToHandler<Id> {
    /// Queue a STATUS request.
    Status(Id, StatusMessage),
    /// Begin the shutdown sequence with this goodbye reason.
    Goodbye(Id, GoodbyeReason),
    /// Queue a request.
    Request(Id, RequestType),
    /// Queue a response on this inbound substream.
    Response(SubstreamId, Response),
}

/// What the behaviour asks the swarm layer to do.
#[derive(Debug)]
pub enum BehaviourAction<Id> {
    /// Hand the instruction to any one open connection of the peer.
    NotifyAnyHandler(PeerId, InstructionToHandler<Id>),
    /// Hand the instruction to the handler of this specific connection; a
    /// response must return on the connection it was asked on.
    NotifyOneHandler(PeerId, u64, InstructionToHandler<Id>),
    /// Surface an RPC event to the composer.
    GenerateEvent(RpcEvent),
    /// Close every connection to the peer.
    CloseConnection(PeerId),
}

/// The RPC behaviour: a queue of actions for the swarm layer, filled by
/// composer-level calls and by handler events.
pub struct Behaviour<Id> {
    /// Pending actions, oldest first.
    pub events: Vec<BehaviourAction<Id>>,
}

impl<Id> Behaviour<Id> {
    pub fn new() -> (b: Behaviour<Id>)
        ensures
            b.events@.len() == 0,
    {
        Behaviour { events: Vec::new() }
    }

    /// Ask any one of the peer's handlers to send a STATUS.
    pub fn send_status(&mut self, request_id: Id, peer_id: PeerId, message: StatusMessage)
        ensures
            final(self).events@ == old(self).events@.push(
                BehaviourAction::NotifyAnyHandler(
                    peer_id,
                    InstructionToHandler::Status(request_id, message),
                ),
            ),
    {
        self.events.push(
            BehaviourAction::NotifyAnyHandler(
                peer_id,
                InstructionToHandler::Status(request_id, message),
            ),
        );
    }

    /// Ask any one of the peer's handlers to send a GOODBYE and shut down.
    pub fn send_goodbye(&mut self, request_id: Id, peer_id: PeerId, reason: GoodbyeReason)
        ensures
            final(self).events@ == old(self).events@.push(
                BehaviourAction::NotifyAnyHandler(
                    peer_id,
                    InstructionToHandler::Goodbye(request_id, reason),
                ),
            ),
    {
        self.events.push(
            BehaviourAction::NotifyAnyHandler(
                peer_id,
                InstructionToHandler::Goodbye(request_id, reason),
            ),
        );
    }

    /// Ask any one of the peer's handlers to send a request.
    pub fn send_request(&mut self, peer_id: PeerId, request: Request, request_id: Id)
        ensures
            final(self).events@ == old(self).events@.push(
                BehaviourAction::NotifyAnyHandler(
                    peer_id,
                    InstructionToHandler::Request(request_id, request.spec_as_request_type()),
                ),
            ),
    {
        let request_type = request.as_request_type();
        self.events.push(
            BehaviourAction::NotifyAnyHandler(
                peer_id,
                InstructionToHandler::Request(request_id, request_type),
            ),
        );
    }

    /// Ask the handler of the named connection to answer on the named
    /// inbound substream.
    pub fn send_response(
        &mut self,
        peer_id: PeerId,
        connection_id: u64,
        substream_id: SubstreamId,
        response: Response,
    )
        ensures
            final(self).events@ == old(self).events@.push(
                BehaviourAction::NotifyOneHandler(
                    peer_id,
                    connection_id,
                    InstructionToHandler::Response(substream_id, response),
                ),
            ),
    {
        self.events.push(
            BehaviourAction::NotifyOneHandler(
                peer_id,
                connection_id,
                InstructionToHandler::Response(substream_id, response),
            ),
        );
    }

    /// Turn an event one connection's handler produced into an upward RPC
    /// event, or into a close-connection action.
    pub fn on_connection_handler_event(
        &mut self,
        peer_id: PeerId,
        connection_id: u64,
        event: HandlerReceived,
    )
        ensures
            final(self).events@ == old(self).events@.push(
                match event {
                    HandlerReceived::Request(inbound_request) => BehaviourAction::GenerateEvent(
                        RpcEvent::ReceivedRequest(
                            ReceivedRequest {
                                peer_id,
                                connection_id,
                                substream_id: inbound_request.substream_id,
                                request: inbound_request.request,
                            },
                        ),
                    ),
                    HandlerReceived::Response(response) => BehaviourAction::GenerateEvent(
                        RpcEvent::ReceivedResponse(ReceivedResponse { peer_id, response }),
                    ),
                    HandlerReceived::CloseConnection(_) => BehaviourAction::CloseConnection(
                        peer_id,
                    ),
                },
            ),
    {
        match event {
            HandlerReceived::Request(inbound_request) => {
                self.events.push(
                    BehaviourAction::GenerateEvent(
                        RpcEvent::ReceivedRequest(
                            ReceivedRequest {
                                peer_id,
                                connection_id,
                                substream_id: inbound_request.substream_id,
                                request: inbound_request.request,
                            },
                        ),
                    ),
                );
            },
            HandlerReceived::Response(response) => {
                self.events.push(
                    BehaviourAction::GenerateEvent(
                        RpcEvent::ReceivedResponse(ReceivedResponse { peer_id, response }),
                    ),
                );
            },
            HandlerReceived::CloseConnection(_) => {
                self.events.push(BehaviourAction::CloseConnection(peer_id));
            },
        }
    }

    /// The next pending action, oldest first.
    pub fn next_action(&mut self) -> (r: Option<BehaviourAction<Id>>)
        ensures
            old(self).events@.len() == 0 ==> r is None && final(self).events@ == old(self).events@,
            old(self).events@.len() > 0 ==> final(self).events@ == old(self).events@.drop_first()
                && match r {
                Some(action) => action == old(self).events@[0],
                None => false,
            },
    {
        if self.events.len() == 0 {
            return None;
        }
        let action = self.events.remove(0);
        proof {
            assert(self.events@ =~= old(self).events@.drop_first());
        }
        Some(action)
    }
}

} // verus!
