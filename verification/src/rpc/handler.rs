//! The per-connection RPC state machine. One handler exists per established
//! connection. It owns the queue of outbound requests still waiting for a
//! substream, the inbound substreams awaiting responses, the outbound
//! substreams being read for responses, and the shutdown timer armed by a
//! GOODBYE.
//!
//! The handler decides; the surrounding event loop performs. `tick` inspects
//! each sub-state in a fixed priority order - shutdown timer, outbound dial
//! queue, upward events, inbound sends - and returns the first actionable
//! instruction. Stream completions come back in through the `on_*` methods.

use vstd::prelude::*;

use crate::rpc::error::RPCError;
use crate::rpc::{GoodbyeReason, RequestType, Response, RpcResponse};
use crate::status::StatusMessage;
use crate::types::PeerId;

verus! {

/// Maximum time in seconds given to the handler to perform shutdown
/// operations once a GOODBYE has been sent or received.
pub const SHUTDOWN_TIMEOUT_SECS: u64 = 15;

/// Identifier of inbound and outbound substreams from the handler's
/// perspective. Sequenced separately per direction; unique within a
/// connection's lifetime and never reused.
#[derive(Debug, Clone, Copy, Hash, Eq, PartialEq, Structural)]
pub struct SubstreamId(pub usize);

/// Mints sequential substream ids.
pub struct SubstreamIdGenerator {
    pub current_id: usize,
}

impl SubstreamIdGenerator {
    pub fn new() -> (g: SubstreamIdGenerator)
        ensures
            g.current_id == 0,
    {
        SubstreamIdGenerator { current_id: 0 }
    }

    /// Returns a sequential id for substreams.
    pub fn next(&mut self) -> (id: SubstreamId)
        requires
            old(self).current_id < usize::MAX,
        ensures
            id.0 == old(self).current_id,
            final(self).current_id == old(self).current_id + 1,
    {
        let id = SubstreamId(self.current_id);
        self.current_id = self.current_id + 1;
        id
    }
}

/// Whether an inbound substream is free or currently carrying a send.
#[derive(Clone, Copy, Debug, PartialEq, Eq, Structural)]
pub enum InboundSubstreamState {
    /// The underlying substream is not being used.
    Idle,
    /// The event loop is driving a send-and-close on the substream.
    Busy,
}

/// Book-keeping for one inbound substream.
pub struct InboundSubstreamInfo {
    /// State of the substream.
    pub state: InboundSubstreamState,
    /// Responses queued for sending, oldest first.
    pub responses_to_send: Vec<Response>,
}

/// A message from the handler to the behaviour.
#[derive(Clone, Copy, Debug, PartialEq, Eq, Structural)]
pub enum HandlerReceived {
    /// A request received from the remote peer.
    Request(InboundRequest),
    /// A response received from the remote peer.
    Response(RpcResponse),
    /// The connection should be closed.
    CloseConnection(RPCError),
}

/// A request received from the remote peer, named by the inbound substream
/// the response must be returned on.
#[derive(Clone, Copy, Debug, PartialEq, Eq, Structural)]
pub struct InboundRequest {
    pub substream_id: SubstreamId,
    pub request: RequestType,
}

/// The handler's lifecycle.
#[derive(Clone, Copy, Debug, PartialEq, Eq, Structural)]
pub enum HandlerState {
    /// All messages are sent and received.
    Active,
    /// A GOODBYE was sent or received: new requests are rejected, existing
    /// substreams drain, and the deadline (in seconds) bounds the drain.
    ShuttingDown(u64),
    /// The deadline expired: the keep-alive is withdrawn and the connection
    /// closes.
    Deactivated,
}

/// What `tick` asks the event loop to do.
pub enum HandlerEvent<Id> {
    /// Open an outbound substream, negotiate, and send this request on it.
    OpenOutbound(Id, RequestType),
    /// Hand this event to the RPC behaviour.
    Notify(HandlerReceived),
    /// Begin sending this response on the named inbound substream, then
    /// close the substream and report back.
    BeginSend(SubstreamId, Response),
}

/// The per-connection handler state machine.
pub struct Handler<Id> {
    /// State of the handler.
    pub state: HandlerState,
    /// Requests waiting for an outbound substream, oldest first.
    pub dial_queue: Vec<(Id, RequestType)>,
    /// Events to hand upward, oldest first.
    pub out_events: Vec<HandlerReceived>,
    /// Inbound substreams awaiting or carrying responses.
    pub inbound_substreams: Vec<(SubstreamId, InboundSubstreamInfo)>,
    /// Sequential id generator for inbound substreams.
    pub inbound_substream_id: SubstreamIdGenerator,
    /// Outbound substreams being read for responses.
    pub outbound_substreams: Vec<SubstreamId>,
    /// Sequential id generator for outbound substreams.
    pub outbound_substream_id: SubstreamIdGenerator,
    /// The peer this handler talks to.
    pub peer_id: PeerId,
}

/// Data the event loop read from a tracked outbound substream.
#[derive(Clone, Copy, Debug, PartialEq, Eq, Structural)]
pub enum OutboundStreamData {
    /// A successfully decoded response.
    Response(RpcResponse),
    /// A frame that failed to decode; the substream survives.
    DecodeError,
    /// The remote closed the substream.
    Eof,
}

impl<Id> Handler<Id> {
    /// Every inbound id was minted by the generator and ids never repeat;
    /// the same holds of outbound ids.
    pub open spec fn wf(self) -> bool {
        &&& forall|i: int|
            0 <= i < self.inbound_substreams@.len() ==> (
            #[trigger] self.inbound_substreams@[i].0).0 < self.inbound_substream_id.current_id
        &&& forall|i: int, j: int|
            0 <= i < j < self.inbound_substreams@.len()
                ==> (#[trigger] self.inbound_substreams@[i].0) != (
            #[trigger] self.inbound_substreams@[j].0)
        &&& forall|i: int|
            0 <= i < self.outbound_substreams@.len() ==> (
            #[trigger] self.outbound_substreams@[i]).0 < self.outbound_substream_id.current_id
        &&& forall|i: int, j: int|
            0 <= i < j < self.outbound_substreams@.len() ==> (
            #[trigger] self.outbound_substreams@[i]) != (#[trigger] self.outbound_substreams@[j])
    }

    /// The shutdown deadline has been reached.
    pub open spec fn spec_shutdown_due(self, now: u64) -> bool {
        match self.state {
            HandlerState::ShuttingDown(deadline) => now >= deadline,
            _ => false,
        }
    }

    /// Some inbound substream is idle with a response waiting.
    pub open spec fn spec_sendable_inbound(self, i: int) -> bool {
        &&& 0 <= i < self.inbound_substreams@.len()
        &&& self.inbound_substreams@[i].1.state == InboundSubstreamState::Idle
        &&& self.inbound_substreams@[i].1.responses_to_send@.len() > 0
    }

    pub open spec fn spec_has_sendable_inbound(self) -> bool {
        exists|i: int| self.spec_sendable_inbound(i)
    }

    pub open spec fn spec_has_inbound(self, id: SubstreamId) -> bool {
        exists|i: int|
            0 <= i < self.inbound_substreams@.len() && (#[trigger] self.inbound_substreams@[i].0)
                == id
    }

    pub open spec fn spec_has_outbound(self, id: SubstreamId) -> bool {
        exists|i: int|
            0 <= i < self.outbound_substreams@.len() && (#[trigger] self.outbound_substreams@[i])
                == id
    }

    pub fn new(peer_id: PeerId) -> (h: Handler<Id>)
        ensures
            h.state == HandlerState::Active,
            h.dial_queue@.len() == 0,
            h.out_events@.len() == 0,
            h.inbound_substreams@.len() == 0,
            h.inbound_substream_id.current_id == 0,
            h.outbound_substreams@.len() == 0,
            h.outbound_substream_id.current_id == 0,
            h.peer_id@ == peer_id@,
            h.wf(),
    {
        Handler {
            state: HandlerState::Active,
            dial_queue: Vec::new(),
            out_events: Vec::new(),
            inbound_substreams: Vec::new(),
            inbound_substream_id: SubstreamIdGenerator::new(),
            outbound_substreams: Vec::new(),
            outbound_substream_id: SubstreamIdGenerator::new(),
            peer_id,
        }
    }

    /// Queue a STATUS request. The dialing side of a connection must send one
    /// upon connection.
    pub fn send_status(&mut self, request_id: Id, status: StatusMessage)
        ensures
            final(self).dial_queue@ == old(self).dial_queue@.push(
                (request_id, RequestType::Status(status)),
            ),
            final(self).state == old(self).state,
            final(self).out_events@ == old(self).out_events@,
            final(self).inbound_substreams@ == old(self).inbound_substreams@,
            final(self).inbound_substream_id == old(self).inbound_substream_id,
            final(self).outbound_substreams@ == old(self).outbound_substreams@,
            final(self).outbound_substream_id == old(self).outbound_substream_id,
            final(self).peer_id@ == old(self).peer_id@,
            old(self).wf() ==> final(self).wf(),
    {
        self.dial_queue.push((request_id, RequestType::Status(status)));
    }

    /// Begin the shutdown sequence: if a reason is given, queue a GOODBYE
    /// carrying it, then arm the drain deadline. Does nothing unless the
    /// handler is still active.
    pub fn shutdown(&mut self, now: u64, reason: Option<(Id, GoodbyeReason)>)
        requires
            now + SHUTDOWN_TIMEOUT_SECS <= u64::MAX,
        ensures
            old(self).state != HandlerState::Active ==> *final(self) == *old(self),
            old(self).state == HandlerState::Active ==> {
                &&& final(self).state == HandlerState::ShuttingDown(
                    (now + SHUTDOWN_TIMEOUT_SECS) as u64,
                )
                &&& final(self).dial_queue@ == match reason {
                    Some((id, r)) => old(self).dial_queue@.push((id, RequestType::Goodbye(r))),
                    None => old(self).dial_queue@,
                }
            },
            final(self).out_events@ == old(self).out_events@,
            final(self).inbound_substreams@ == old(self).inbound_substreams@,
            final(self).inbound_substream_id == old(self).inbound_substream_id,
            final(self).outbound_substreams@ == old(self).outbound_substreams@,
            final(self).outbound_substream_id == old(self).outbound_substream_id,
            final(self).peer_id@ == old(self).peer_id@,
            old(self).wf() ==> final(self).wf(),
    {
        match self.state {
            HandlerState::Active => {},
            _ => {
                return ;
            },
        }

        // Queue our goodbye message.
        if let Some((request_id, goodbye_reason)) = reason {
            self.dial_queue.push((request_id, RequestType::Goodbye(goodbye_reason)));
        }

        // Update the state to start the shutdown process.
        self.state = HandlerState::ShuttingDown(now + SHUTDOWN_TIMEOUT_SECS);
    }

    /// Queue a request. While shutting down or deactivated, new requests are
    /// rejected.
    pub fn send_request(&mut self, request_id: Id, request: RequestType)
        ensures
            old(self).state == HandlerState::Active ==> final(self).dial_queue@ == old(
                self,
            ).dial_queue@.push((request_id, request)),
            old(self).state != HandlerState::Active ==> final(self).dial_queue@ == old(
                self,
            ).dial_queue@,
            final(self).state == old(self).state,
            final(self).out_events@ == old(self).out_events@,
            final(self).inbound_substreams@ == old(self).inbound_substreams@,
            final(self).inbound_substream_id == old(self).inbound_substream_id,
            final(self).outbound_substreams@ == old(self).outbound_substreams@,
            final(self).outbound_substream_id == old(self).outbound_substream_id,
            final(self).peer_id@ == old(self).peer_id@,
            old(self).wf() ==> final(self).wf(),
    {
        match self.state {
            HandlerState::Active => {
                self.dial_queue.push((request_id, request));
            },
            _ => {},
        }
    }

    /// The index of the inbound substream with this id, if any.
    fn find_inbound(&self, substream_id: SubstreamId) -> (r: Option<usize>)
        ensures
            match r {
                Some(i) => i < self.inbound_substreams@.len() && self.inbound_substreams@[
                    i as int
                ].0 == substream_id,
                None => !self.spec_has_inbound(substream_id),
            },
    {
        let n = self.inbound_substreams.len();
        let mut i: usize = 0;
        while i < n
            invariant
                n == self.inbound_substreams@.len(),
                i <= n,
                forall|j: int|
                    0 <= j < i ==> (#[trigger] self.inbound_substreams@[j].0) != substream_id,
            decreases n - i,
        {
            if self.inbound_substreams[i].0 == substream_id {
                return Some(i);
            }
            i = i + 1;
        }
        None
    }

    /// Queue a response on the inbound substream the request arrived on. If
    /// the substream is gone (already drained or torn down), the response is
    /// dropped.
    pub fn send_response(&mut self, substream_id: SubstreamId, response: Response)
        ensures
            !old(self).spec_has_inbound(substream_id) ==> *final(self) == *old(self),
            old(self).spec_has_inbound(substream_id) ==> {
                &&& final(self).inbound_substreams@.len() == old(self).inbound_substreams@.len()
                &&& exists|i: int|
                    {
                        &&& 0 <= i < old(self).inbound_substreams@.len()
                        &&& old(self).inbound_substreams@[i].0 == substream_id
                        &&& (#[trigger] final(self).inbound_substreams@[i]).0 == substream_id
                        &&& final(self).inbound_substreams@[i].1.state == old(
                            self,
                        ).inbound_substreams@[i].1.state
                        &&& final(self).inbound_substreams@[i].1.responses_to_send@ == old(
                            self,
                        ).inbound_substreams@[i].1.responses_to_send@.push(response)
                        &&& forall|j: int|
                            0 <= j < final(self).inbound_substreams@.len() && j != i ==> (
                            #[trigger] final(self).inbound_substreams@[j]) == old(
                                self,
                            ).inbound_substreams@[j]
                    }
            },
            final(self).state == old(self).state,
            final(self).dial_queue@ == old(self).dial_queue@,
            final(self).out_events@ == old(self).out_events@,
            final(self).inbound_substream_id == old(self).inbound_substream_id,
            final(self).outbound_substreams@ == old(self).outbound_substreams@,
            final(self).outbound_substream_id == old(self).outbound_substream_id,
            final(self).peer_id@ == old(self).peer_id@,
            old(self).wf() ==> final(self).wf(),
    {
        match self.find_inbound(substream_id) {
            None => {
                // Inbound substream not found: nothing to answer on.
            },
            Some(i) => {
                let ghost pre = self.inbound_substreams@;
                let (id, mut info) = self.inbound_substreams.remove(i);
                info.responses_to_send.push(response);
                self.inbound_substreams.insert(i, (id, info));
                proof {
                    assert(self.inbound_substreams@ =~= pre.update(
                        i as int,
                        self.inbound_substreams@[i as int],
                    ));
                }
            },
        }
    }

    /// A new inbound substream finished protocol negotiation and carried this
    /// request: store the substream under a fresh id, begin the shutdown
    /// sequence if the request is a GOODBYE, and queue the request for the
    /// behaviour.
    pub fn on_fully_negotiated_inbound(&mut self, request: RequestType, now: u64)
        requires
            old(self).inbound_substream_id.current_id < usize::MAX,
            now + SHUTDOWN_TIMEOUT_SECS <= u64::MAX,
        ensures
            final(self).inbound_substream_id.current_id == old(
                self,
            ).inbound_substream_id.current_id + 1,
            final(self).inbound_substreams@.len() == old(self).inbound_substreams@.len() + 1,
            forall|j: int|
                0 <= j < old(self).inbound_substreams@.len() ==> (
                #[trigger] final(self).inbound_substreams@[j]) == old(self).inbound_substreams@[j],
            final(self).inbound_substreams@.last().0 == SubstreamId(
                old(self).inbound_substream_id.current_id,
            ),
            final(self).inbound_substreams@.last().1.state == InboundSubstreamState::Idle,
            final(self).inbound_substreams@.last().1.responses_to_send@.len() == 0,
            final(self).out_events@ == old(self).out_events@.push(
                HandlerReceived::Request(
                    InboundRequest {
                        substream_id: SubstreamId(old(self).inbound_substream_id.current_id),
                        request,
                    },
                ),
            ),
            final(self).state == if request is Goodbye && old(self).state
                == HandlerState::Active {
                HandlerState::ShuttingDown((now + SHUTDOWN_TIMEOUT_SECS) as u64)
            } else {
                old(self).state
            },
            final(self).dial_queue@ == old(self).dial_queue@,
            final(self).outbound_substreams@ == old(self).outbound_substreams@,
            final(self).outbound_substream_id == old(self).outbound_substream_id,
            final(self).peer_id@ == old(self).peer_id@,
            old(self).wf() ==> final(self).wf(),
    {
        let inbound_substream_id = self.inbound_substream_id.next();

        // Store the inbound substream. The id is fresh, so no entry is
        // displaced.
        self.inbound_substreams.push(
            (
                inbound_substream_id,
                InboundSubstreamInfo {
                    state: InboundSubstreamState::Idle,
                    responses_to_send: Vec::new(),
                },
            ),
        );

        // A GOODBYE expects no response and begins the shutdown sequence.
        if matches!(request, RequestType::Goodbye(_)) {
            self.shutdown(now, None);
        }

        // Queue the received request for the behaviour.
        self.out_events.push(
            HandlerReceived::Request(InboundRequest { substream_id: inbound_substream_id, request }),
        );
    }

    /// A new outbound substream finished protocol negotiation for this
    /// request: track it for responses exactly when the request expects any.
    pub fn on_fully_negotiated_outbound(&mut self, request: &RequestType)
        requires
            old(self).outbound_substream_id.current_id < usize::MAX,
        ensures
            final(self).outbound_substream_id.current_id == old(
                self,
            ).outbound_substream_id.current_id + 1,
            request.spec_expected_responses() > 0 ==> final(self).outbound_substreams@ == old(
                self,
            ).outbound_substreams@.push(SubstreamId(old(self).outbound_substream_id.current_id)),
            request.spec_expected_responses() == 0 ==> final(self).outbound_substreams@ == old(
                self,
            ).outbound_substreams@,
            final(self).state == old(self).state,
            final(self).dial_queue@ == old(self).dial_queue@,
            final(self).out_events@ == old(self).out_events@,
            final(self).inbound_substreams@ == old(self).inbound_substreams@,
            final(self).inbound_substream_id == old(self).inbound_substream_id,
            final(self).peer_id@ == old(self).peer_id@,
            old(self).wf() ==> final(self).wf(),
    {
        let outbound_substream_id = self.outbound_substream_id.next();

        if request.expected_responses() > 0 {
            // Fire-and-forget requests are not tracked.
            self.outbound_substreams.push(outbound_substream_id);
        }
    }

    /// Whether the connection should be kept alive: yes until the shutdown
    /// deadline has deactivated the handler.
    pub fn connection_keep_alive(&self) -> (r: bool)
        ensures
            r == (self.state != HandlerState::Deactivated),
    {
        !matches!(self.state, HandlerState::Deactivated)
    }

    /// One scheduling step. Checks each sub-state in a fixed priority order -
    /// expired shutdown deadline, outbound dial queue, upward events, inbound
    /// sends - and returns the first actionable instruction, or nothing.
    pub fn tick(&mut self, now: u64) -> (r: Option<HandlerEvent<Id>>)
        ensures
            old(self).wf() ==> final(self).wf(),
            final(self).peer_id@ == old(self).peer_id@,
            final(self).inbound_substream_id == old(self).inbound_substream_id,
            final(self).outbound_substream_id == old(self).outbound_substream_id,
            final(self).outbound_substreams@ == old(self).outbound_substreams@,
            // The shutdown deadline fired: deactivate and ask for the close.
            old(self).spec_shutdown_due(now) ==> {
                &&& r == Some(
                    HandlerEvent::<Id>::Notify(
                        HandlerReceived::CloseConnection(RPCError::Disconnected),
                    ),
                )
                &&& final(self).state == HandlerState::Deactivated
                &&& final(self).dial_queue@ == old(self).dial_queue@
                &&& final(self).out_events@ == old(self).out_events@
                &&& final(self).inbound_substreams@ == old(self).inbound_substreams@
            },
            // A queued request waits: ask for one outbound substream.
            !old(self).spec_shutdown_due(now) && old(self).dial_queue@.len() > 0 ==> {
                &&& r == Some(
                    HandlerEvent::OpenOutbound(
                        old(self).dial_queue@[0].0,
                        old(self).dial_queue@[0].1,
                    ),
                )
                &&& final(self).dial_queue@ == old(self).dial_queue@.drop_first()
                &&& final(self).state == old(self).state
                &&& final(self).out_events@ == old(self).out_events@
                &&& final(self).inbound_substreams@ == old(self).inbound_substreams@
            },
            // An event waits for the behaviour.
            !old(self).spec_shutdown_due(now) && old(self).dial_queue@.len() == 0 && old(
                self,
            ).out_events@.len() > 0 ==> {
                &&& r == Some(HandlerEvent::<Id>::Notify(old(self).out_events@[0]))
                &&& final(self).out_events@ == old(self).out_events@.drop_first()
                &&& final(self).state == old(self).state
                &&& final(self).dial_queue@ == old(self).dial_queue@
                &&& final(self).inbound_substreams@ == old(self).inbound_substreams@
            },
            // The first idle inbound substream with a queued response starts
            // its send.
            !old(self).spec_shutdown_due(now) && old(self).dial_queue@.len() == 0 && old(
                self,
            ).out_events@.len() == 0 && old(self).spec_has_sendable_inbound() ==> exists|i: int|
                #![auto]
                {
                    &&& old(self).spec_sendable_inbound(i)
                    &&& forall|j: int| 0 <= j < i ==> !old(self).spec_sendable_inbound(j)
                    &&& r == Some(
                        HandlerEvent::<Id>::BeginSend(
                            old(self).inbound_substreams@[i].0,
                            old(self).inbound_substreams@[i].1.responses_to_send@[0],
                        ),
                    )
                    &&& final(self).inbound_substreams@.len() == old(
                        self,
                    ).inbound_substreams@.len()
                    &&& final(self).inbound_substreams@[i].0 == old(self).inbound_substreams@[i].0
                    &&& final(self).inbound_substreams@[i].1.state
                        == InboundSubstreamState::Busy
                    &&& final(self).inbound_substreams@[i].1.responses_to_send@ == old(
                        self,
                    ).inbound_substreams@[i].1.responses_to_send@.drop_first()
                    &&& forall|j: int|
                        0 <= j < final(self).inbound_substreams@.len() && j != i ==> (
                        #[trigger] final(self).inbound_substreams@[j]) == old(
                            self,
                        ).inbound_substreams@[j]
                    &&& final(self).state == old(self).state
                    &&& final(self).dial_queue@ == old(self).dial_queue@
                    &&& final(self).out_events@ == old(self).out_events@
                },
            // Nothing is actionable.
            !old(self).spec_shutdown_due(now) && old(self).dial_queue@.len() == 0 && old(
                self,
            ).out_events@.len() == 0 && !old(self).spec_has_sendable_inbound() ==> r is None
                && *final(self) == *old(self),
    {
        // Check whether we are shutting down and the timer ran out.
        let due = match self.state {
            HandlerState::ShuttingDown(deadline) => now >= deadline,
            _ => false,
        };
        if due {
            self.state = HandlerState::Deactivated;
            return Some(
                HandlerEvent::Notify(HandlerReceived::CloseConnection(RPCError::Disconnected)),
            );
        }

        // Establish outbound substreams, one open request per tick.
        if self.dial_queue.len() > 0 {
            let (request_id, request) = self.dial_queue.remove(0);
            proof {
                assert(self.dial_queue@ =~= old(self).dial_queue@.drop_first());
            }
            return Some(HandlerEvent::OpenOutbound(request_id, request));
        }

        // Inform events to the behaviour.
        if self.out_events.len() > 0 {
            let event = self.out_events.remove(0);
            proof {
                assert(self.out_events@ =~= old(self).out_events@.drop_first());
            }
            return Some(HandlerEvent::Notify(event));
        }

        // Drive inbound substreams: start the send of the oldest queued
        // response on the first idle substream that has one.
        let n = self.inbound_substreams.len();
        let mut i: usize = 0;
        while i < n
            invariant
                *self == *old(self),
                !old(self).spec_shutdown_due(now),
                old(self).dial_queue@.len() == 0,
                old(self).out_events@.len() == 0,
                n == self.inbound_substreams@.len(),
                i <= n,
                forall|j: int| 0 <= j < i ==> !old(self).spec_sendable_inbound(j),
            decreases n - i,
        {
            let sendable = matches!(
                self.inbound_substreams[i].1.state,
                InboundSubstreamState::Idle,
            ) && self.inbound_substreams[i].1.responses_to_send.len() > 0;
            if sendable {
                proof {
                    assert(old(self).spec_sendable_inbound(i as int));
                }
                let ghost pre = self.inbound_substreams@;
                let (substream_id, mut info) = self.inbound_substreams.remove(i);
                let response = info.responses_to_send.remove(0);
                info.state = InboundSubstreamState::Busy;
                self.inbound_substreams.insert(i, (substream_id, info));
                proof {
                    assert(self.inbound_substreams@ =~= pre.update(
                        i as int,
                        self.inbound_substreams@[i as int],
                    ));
                    assert(info.responses_to_send@ =~= pre[i as int].1.responses_to_send@
                        .drop_first());
                    assert(self.inbound_substreams@[i as int].1.responses_to_send@ == old(
                        self,
                    ).inbound_substreams@[i as int].1.responses_to_send@.drop_first());
                    assert(forall|j: int| 0 <= j < i ==> !old(self).spec_sendable_inbound(j));
                    assert(response == old(self).inbound_substreams@[
                        i as int
                    ].1.responses_to_send@[0]);
                }
                return Some(HandlerEvent::BeginSend(substream_id, response));
            }
            i = i + 1;
        }
        None
    }

    /// The send-and-close on this inbound substream finished, successfully or
    /// not: either way there is nothing more to process on it, so it is
    /// dropped.
    pub fn on_inbound_send_result(&mut self, substream_id: SubstreamId)
        ensures
            !old(self).spec_has_inbound(substream_id) ==> *final(self) == *old(self),
            old(self).spec_has_inbound(substream_id) ==> exists|i: int|
                #![auto]
                {
                    &&& 0 <= i < old(self).inbound_substreams@.len()
                    &&& old(self).inbound_substreams@[i].0 == substream_id
                    &&& final(self).inbound_substreams@ == old(self).inbound_substreams@.remove(i)
                },
            final(self).state == old(self).state,
            final(self).dial_queue@ == old(self).dial_queue@,
            final(self).out_events@ == old(self).out_events@,
            final(self).inbound_substream_id == old(self).inbound_substream_id,
            final(self).outbound_substreams@ == old(self).outbound_substreams@,
            final(self).outbound_substream_id == old(self).outbound_substream_id,
            final(self).peer_id@ == old(self).peer_id@,
            old(self).wf() ==> final(self).wf(),
    {
        match self.find_inbound(substream_id) {
            None => {},
            Some(i) => {
                let _ = self.inbound_substreams.remove(i);
            },
        }
    }

    /// The index of the tracked outbound substream with this id, if any.
    fn find_outbound(&self, substream_id: SubstreamId) -> (r: Option<usize>)
        ensures
            match r {
                Some(i) => i < self.outbound_substreams@.len() && self.outbound_substreams@[
                    i as int
                ] == substream_id,
                None => !self.spec_has_outbound(substream_id),
            },
    {
        let n = self.outbound_substreams.len();
        let mut i: usize = 0;
        while i < n
            invariant
                n == self.outbound_substreams@.len(),
                i <= n,
                forall|j: int| 0 <= j < i ==> (#[trigger] self.outbound_substreams@[j])
                    != substream_id,
            decreases n - i,
        {
            if self.outbound_substreams[i] == substream_id {
                return Some(i);
            }
            i = i + 1;
        }
        None
    }

    /// Apply an instruction from the RPC behaviour: queue a STATUS or a
    /// request, begin the shutdown sequence carrying the goodbye's reason,
    /// or queue a response on the named inbound substream.
    pub fn on_behaviour_event(
        &mut self,
        event: crate::rpc::behaviour::InstructionToHandler<Id>,
        now: u64,
    )
        requires
            now + SHUTDOWN_TIMEOUT_SECS <= u64::MAX,
        ensures
            old(self).wf() ==> final(self).wf(),
            final(self).peer_id@ == old(self).peer_id@,
            final(self).inbound_substream_id == old(self).inbound_substream_id,
            final(self).outbound_substream_id == old(self).outbound_substream_id,
            final(self).outbound_substreams@ == old(self).outbound_substreams@,
            final(self).out_events@ == old(self).out_events@,
            match event {
                crate::rpc::behaviour::InstructionToHandler::Status(id, s) => {
                    &&& final(self).dial_queue@ == old(self).dial_queue@.push(
                        (id, RequestType::Status(s)),
                    )
                    &&& final(self).state == old(self).state
                    &&& final(self).inbound_substreams@ == old(self).inbound_substreams@
                },
                crate::rpc::behaviour::InstructionToHandler::Goodbye(id, reason) => {
                    &&& (old(self).state == HandlerState::Active ==> final(self).state
                        == HandlerState::ShuttingDown((now + SHUTDOWN_TIMEOUT_SECS) as u64)
                        && final(self).dial_queue@ == old(self).dial_queue@.push(
                        (id, RequestType::Goodbye(reason)),
                    ))
                    &&& (old(self).state != HandlerState::Active ==> *final(self) == *old(self))
                    &&& final(self).inbound_substreams@ == old(self).inbound_substreams@
                },
                crate::rpc::behaviour::InstructionToHandler::Request(id, request) => {
                    &&& (old(self).state == HandlerState::Active ==> final(self).dial_queue@
                        == old(self).dial_queue@.push((id, request)))
                    &&& (old(self).state != HandlerState::Active ==> final(self).dial_queue@
                        == old(self).dial_queue@)
                    &&& final(self).state == old(self).state
                    &&& final(self).inbound_substreams@ == old(self).inbound_substreams@
                },
                crate::rpc::behaviour::InstructionToHandler::Response(substream_id, _) => {
                    &&& final(self).state == old(self).state
                    &&& final(self).dial_queue@ == old(self).dial_queue@
                    &&& (!old(self).spec_has_inbound(substream_id) ==> *final(self) == *old(
                        self,
                    ))
                    &&& final(self).inbound_substreams@.len() == old(
                        self,
                    ).inbound_substreams@.len()
                },
            },
    {
        match event {
            crate::rpc::behaviour::InstructionToHandler::Status(request_id, status) => {
                self.send_status(request_id, status);
            },
            crate::rpc::behaviour::InstructionToHandler::Goodbye(request_id, reason) => {
                self.shutdown(now, Some((request_id, reason)));
            },
            crate::rpc::behaviour::InstructionToHandler::Request(request_id, request) => {
                self.send_request(request_id, request);
            },
            crate::rpc::behaviour::InstructionToHandler::Response(substream_id, response) => {
                self.send_response(substream_id, response);
            },
        }
    }

    /// The event loop read something on a tracked outbound substream. A
    /// decoded response is surfaced; a frame that fails to decode is logged
    /// and skipped rather than tearing the connection down; the remote
    /// closing the stream unregisters it and asks for the connection to
    /// close.
    pub fn on_outbound_stream_data(&mut self, substream_id: SubstreamId, data: OutboundStreamData)
        -> (r: Option<HandlerReceived>)
        ensures
            data is Response ==> *final(self) == *old(self) && r == Some(
                HandlerReceived::Response(data->Response_0),
            ),
            data is DecodeError ==> *final(self) == *old(self) && r is None,
            data is Eof && !old(self).spec_has_outbound(substream_id) ==> *final(self) == *old(
                self,
            ) && r is None,
            data is Eof && old(self).spec_has_outbound(substream_id) ==> {
                &&& exists|i: int|
                    #![auto]
                    {
                        &&& 0 <= i < old(self).outbound_substreams@.len()
                        &&& old(self).outbound_substreams@[i] == substream_id
                        &&& final(self).outbound_substreams@ == old(
                            self,
                        ).outbound_substreams@.remove(i)
                    }
                &&& r == Some(HandlerReceived::CloseConnection(RPCError::Disconnected))
                &&& final(self).state == old(self).state
                &&& final(self).dial_queue@ == old(self).dial_queue@
                &&& final(self).out_events@ == old(self).out_events@
                &&& final(self).inbound_substreams@ == old(self).inbound_substreams@
                &&& final(self).inbound_substream_id == old(self).inbound_substream_id
                &&& final(self).outbound_substream_id == old(self).outbound_substream_id
            },
            final(self).peer_id@ == old(self).peer_id@,
            old(self).wf() ==> final(self).wf(),
    {
        match data {
            OutboundStreamData::Response(response) => Some(HandlerReceived::Response(response)),
            OutboundStreamData::DecodeError => {
                // One bad decode does not tear down the connection.
                None
            },
            OutboundStreamData::Eof => {
                match self.find_outbound(substream_id) {
                    None => None,
                    Some(i) => {
                        // The remote has nothing more to send on this stream.
                        let _ = self.outbound_substreams.remove(i);
                        Some(HandlerReceived::CloseConnection(RPCError::Disconnected))
                    },
                }
            },
        }
    }
}

} // verus!
