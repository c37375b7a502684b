//! The RPC protocol ids, the per-connection handler state machine, and the
//! cross-connection behaviour.

use ray::rpc::behaviour::{Behaviour, BehaviourAction, InstructionToHandler};
use ray::rpc::error::RPCError;
use ray::rpc::handler::{
    Handler, HandlerEvent, HandlerReceived, HandlerState, InboundSubstreamState,
    OutboundStreamData, SubstreamId, SubstreamIdGenerator, SHUTDOWN_TIMEOUT_SECS,
};
use ray::rpc::protocol::{
    supported_inbound_protocols, supported_outbound_protocols, ProtocolId, Protocol,
    SchemaVersion, Encoding,
};
use ray::rpc::{GoodbyeReason, RequestType, Response, RpcResponse};
use ray::status::{ForkDigest, StatusMessage};
use ray::types::{Epoch, PeerId, Root, Slot};

fn local_status() -> StatusMessage {
    StatusMessage {
        fork_digest: ForkDigest::new(1, 1, 1, 1),
        finalized_root: Root::from_low_u64_le(10),
        finalized_epoch: Epoch::new(5),
        head_root: Root::from_low_u64_le(20),
        head_slot: Slot::new(100),
    }
}

#[test]
fn protocol_ids_are_bit_exact() {
    let status = ProtocolId::new(Protocol::Status, SchemaVersion::V1, Encoding::SSZSnappy);
    assert_eq!(status.as_str(), "/eth2/beacon_chain/req/status/1/ssz_snappy");

    let goodbye = ProtocolId::new(Protocol::Goodbye, SchemaVersion::V1, Encoding::SSZSnappy);
    assert_eq!(goodbye.as_str(), "/eth2/beacon_chain/req/goodbye/1/ssz_snappy");

    let by_range = ProtocolId::new(
        Protocol::BlocksByRange,
        SchemaVersion::V2,
        Encoding::SSZSnappy,
    );
    assert_eq!(
        by_range.as_str(),
        "/eth2/beacon_chain/req/beacon_blocks_by_range/2/ssz_snappy"
    );
}

#[test]
fn negotiation_offers_the_documented_protocols() {
    let inbound = supported_inbound_protocols();
    let names: Vec<&str> = inbound.iter().map(|p| p.protocol_id.as_str()).collect();
    assert_eq!(
        names,
        vec![
            "/eth2/beacon_chain/req/status/1/ssz_snappy",
            "/eth2/beacon_chain/req/goodbye/1/ssz_snappy",
            "/eth2/beacon_chain/req/beacon_blocks_by_range/2/ssz_snappy",
            "/eth2/beacon_chain/req/beacon_blocks_by_range/1/ssz_snappy",
        ]
    );

    let status = supported_outbound_protocols(&RequestType::Status(local_status()));
    assert_eq!(status.len(), 1);
    assert_eq!(status[0].as_str(), "/eth2/beacon_chain/req/status/1/ssz_snappy");

    let goodbye = supported_outbound_protocols(&RequestType::Goodbye(GoodbyeReason::Unknown));
    assert_eq!(goodbye.len(), 1);
    assert_eq!(goodbye[0].as_str(), "/eth2/beacon_chain/req/goodbye/1/ssz_snappy");

    let by_range = supported_outbound_protocols(&RequestType::BlocksByRange(
        ray::rpc::BlocksByRangeRequest { start_slot: 1, count: 64 },
    ));
    assert_eq!(by_range.len(), 2);
    assert_eq!(
        by_range[0].as_str(),
        "/eth2/beacon_chain/req/beacon_blocks_by_range/2/ssz_snappy"
    );
    assert_eq!(
        by_range[1].as_str(),
        "/eth2/beacon_chain/req/beacon_blocks_by_range/1/ssz_snappy"
    );

    // Kinds outside the core wire scope offer nothing.
    assert!(supported_outbound_protocols(&RequestType::Ping).is_empty());
}

#[test]
fn substream_ids_are_sequential_and_per_generator() {
    let mut inbound = SubstreamIdGenerator::new();
    let mut outbound = SubstreamIdGenerator::new();
    assert_eq!(inbound.next(), SubstreamId(0));
    assert_eq!(inbound.next(), SubstreamId(1));
    // The directions are sequenced separately.
    assert_eq!(outbound.next(), SubstreamId(0));
}

#[test]
fn handler_services_the_dial_queue_fifo() {
    let mut handler: Handler<u32> = Handler::new(PeerId::new(vec![1]));
    handler.send_status(7, local_status());
    handler.send_request(8, RequestType::Ping);

    match handler.tick(0) {
        Some(HandlerEvent::OpenOutbound(id, RequestType::Status(s))) => {
            assert_eq!(id, 7);
            assert_eq!(s, local_status());
        }
        _ => panic!("expected the queued status first"),
    }
    match handler.tick(0) {
        Some(HandlerEvent::OpenOutbound(id, RequestType::Ping)) => assert_eq!(id, 8),
        _ => panic!("expected the queued ping second"),
    }
    assert!(handler.tick(0).is_none());
}

#[test]
fn handler_rejects_requests_while_shutting_down() {
    let mut handler: Handler<u32> = Handler::new(PeerId::new(vec![1]));
    handler.shutdown(100, Some((1, GoodbyeReason::ClientShutdown)));
    assert_eq!(handler.state, HandlerState::ShuttingDown(100 + SHUTDOWN_TIMEOUT_SECS));

    // The goodbye still drains, but new requests are rejected.
    handler.send_request(2, RequestType::Ping);
    assert_eq!(handler.dial_queue.len(), 1);
    match handler.tick(101) {
        Some(HandlerEvent::OpenOutbound(id, RequestType::Goodbye(reason))) => {
            assert_eq!(id, 1);
            assert_eq!(reason, GoodbyeReason::ClientShutdown);
        }
        _ => panic!("expected the goodbye to drain"),
    }
}

#[test]
fn handler_deadline_deactivates_and_closes() {
    let mut handler: Handler<u32> = Handler::new(PeerId::new(vec![1]));
    handler.shutdown(100, None);
    assert!(handler.connection_keep_alive());

    // Before the deadline the handler stays alive.
    assert!(handler.tick(100 + SHUTDOWN_TIMEOUT_SECS - 1).is_none());

    match handler.tick(100 + SHUTDOWN_TIMEOUT_SECS) {
        Some(HandlerEvent::Notify(HandlerReceived::CloseConnection(RPCError::Disconnected))) => {}
        _ => panic!("expected the close signal at the deadline"),
    }
    assert_eq!(handler.state, HandlerState::Deactivated);
    assert!(!handler.connection_keep_alive());
}

#[test]
fn inbound_goodbye_starts_shutdown() {
    let mut handler: Handler<u32> = Handler::new(PeerId::new(vec![1]));
    handler.on_fully_negotiated_inbound(RequestType::Goodbye(GoodbyeReason::Fault), 50);
    assert_eq!(handler.state, HandlerState::ShuttingDown(50 + SHUTDOWN_TIMEOUT_SECS));

    // The received goodbye is still surfaced to the behaviour.
    match handler.tick(51) {
        Some(HandlerEvent::Notify(HandlerReceived::Request(inbound))) => {
            assert_eq!(inbound.substream_id, SubstreamId(0));
            assert!(matches!(inbound.request, RequestType::Goodbye(GoodbyeReason::Fault)));
        }
        _ => panic!("expected the request event"),
    }
}

#[test]
fn inbound_response_flow_drives_idle_busy_removed() {
    let mut handler: Handler<u32> = Handler::new(PeerId::new(vec![1]));
    handler.on_fully_negotiated_inbound(RequestType::Status(local_status()), 0);

    // The request is surfaced first.
    let surfaced = handler.tick(1);
    assert!(matches!(surfaced, Some(HandlerEvent::Notify(HandlerReceived::Request(_)))));

    // A queued response turns the idle substream busy.
    handler.send_response(SubstreamId(0), Response::Status(local_status()));
    match handler.tick(2) {
        Some(HandlerEvent::BeginSend(sid, Response::Status(s))) => {
            assert_eq!(sid, SubstreamId(0));
            assert_eq!(s, local_status());
        }
        _ => panic!("expected the send to begin"),
    }
    assert_eq!(handler.inbound_substreams.len(), 1);
    assert_eq!(handler.inbound_substreams[0].1.state, InboundSubstreamState::Busy);

    // Sending a response on a busy or unknown substream never panics; the
    // unknown one is dropped.
    handler.send_response(SubstreamId(9), Response::Status(local_status()));

    // Once the send-and-close finished, the substream is gone.
    handler.on_inbound_send_result(SubstreamId(0));
    assert_eq!(handler.inbound_substreams.len(), 0);
}

#[test]
fn outbound_substreams_track_only_requests_expecting_responses() {
    let mut handler: Handler<u32> = Handler::new(PeerId::new(vec![1]));
    handler.on_fully_negotiated_outbound(&RequestType::Goodbye(GoodbyeReason::Unknown));
    assert_eq!(handler.outbound_substreams.len(), 0);

    handler.on_fully_negotiated_outbound(&RequestType::Status(local_status()));
    // Ids are minted even for untracked substreams, so the tracked one is 1.
    assert_eq!(handler.outbound_substreams, vec![SubstreamId(1)]);

    // A decoded response is surfaced and the stream stays.
    let got = handler.on_outbound_stream_data(
        SubstreamId(1),
        OutboundStreamData::Response(RpcResponse::Status(local_status())),
    );
    assert!(matches!(got, Some(HandlerReceived::Response(RpcResponse::Status(_)))));
    assert_eq!(handler.outbound_substreams.len(), 1);

    // A bad decode is skipped without tearing anything down.
    let got = handler.on_outbound_stream_data(SubstreamId(1), OutboundStreamData::DecodeError);
    assert!(got.is_none());
    assert_eq!(handler.outbound_substreams.len(), 1);

    // The remote closing the stream unregisters it and closes the
    // connection.
    let got = handler.on_outbound_stream_data(SubstreamId(1), OutboundStreamData::Eof);
    assert!(matches!(
        got,
        Some(HandlerReceived::CloseConnection(RPCError::Disconnected))
    ));
    assert_eq!(handler.outbound_substreams.len(), 0);
}

#[test]
fn behaviour_routes_calls_and_handler_events() {
    let mut behaviour: Behaviour<u32> = Behaviour::new();
    let peer = PeerId::new(vec![1]);

    behaviour.send_status(3, peer.clone(), local_status());
    behaviour.send_goodbye(4, peer.clone(), GoodbyeReason::TooManyPeers);
    behaviour.send_response(peer.clone(), 11, SubstreamId(2), Response::Status(local_status()));
    behaviour.on_connection_handler_event(
        peer.clone(),
        11,
        HandlerReceived::CloseConnection(RPCError::Disconnected),
    );

    match behaviour.next_action() {
        Some(BehaviourAction::NotifyAnyHandler(p, InstructionToHandler::Status(id, _))) => {
            assert_eq!(p, peer);
            assert_eq!(id, 3);
        }
        _ => panic!("expected the status instruction first"),
    }
    match behaviour.next_action() {
        Some(BehaviourAction::NotifyAnyHandler(_, InstructionToHandler::Goodbye(id, reason))) => {
            assert_eq!(id, 4);
            assert_eq!(reason, GoodbyeReason::TooManyPeers);
        }
        _ => panic!("expected the goodbye instruction"),
    }
    match behaviour.next_action() {
        Some(BehaviourAction::NotifyOneHandler(
            _,
            connection,
            InstructionToHandler::Response(sid, _),
        )) => {
            assert_eq!(connection, 11);
            assert_eq!(sid, SubstreamId(2));
        }
        _ => panic!("expected the response instruction"),
    }
    assert!(matches!(
        behaviour.next_action(),
        Some(BehaviourAction::CloseConnection(_))
    ));
    assert!(behaviour.next_action().is_none());
}

#[test]
fn rpc_error_message_is_stable() {
    assert_eq!(RPCError::Disconnected.message(), "RPC Error");
}

#[test]
fn expected_responses_follow_the_request_kind() {
    assert_eq!(RequestType::Status(local_status()).expected_responses(), 1);
    assert_eq!(RequestType::Goodbye(GoodbyeReason::Unknown).expected_responses(), 0);
    assert_eq!(
        RequestType::BlocksByRange(ray::rpc::BlocksByRangeRequest { start_slot: 1, count: 64 })
            .expected_responses(),
        64
    );
}

#[test]
fn behaviour_instructions_drive_the_handler() {
    let mut handler: Handler<u32> = Handler::new(PeerId::new(vec![1]));

    handler.on_behaviour_event(InstructionToHandler::Status(1, local_status()), 10);
    assert_eq!(handler.dial_queue.len(), 1);

    handler.on_fully_negotiated_inbound(RequestType::Status(local_status()), 10);
    handler.on_behaviour_event(
        InstructionToHandler::Response(SubstreamId(0), Response::Status(local_status())),
        10,
    );
    assert_eq!(handler.inbound_substreams[0].1.responses_to_send.len(), 1);

    handler.on_behaviour_event(
        InstructionToHandler::Goodbye(2, GoodbyeReason::ClientShutdown),
        10,
    );
    assert_eq!(handler.state, HandlerState::ShuttingDown(10 + SHUTDOWN_TIMEOUT_SECS));
    // While shutting down a further request is rejected.
    handler.on_behaviour_event(InstructionToHandler::Request(3, RequestType::Ping), 11);
    assert_eq!(handler.dial_queue.len(), 2);
}
