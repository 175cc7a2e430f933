use discord_gateway::client::ClientState;
use discord_gateway::client::CloseReason;
use discord_gateway::client::GatewayClient;
use discord_gateway::client::ReadInput;
use discord_gateway::outbound::OutboundChannel;
use discord_gateway::outbound::RecvOutcome;
use discord_gateway::outbound::ThreadEvent;
use discord_gateway::protocol::Frame;
use discord_gateway::protocol::NegotiationError;
use discord_gateway::protocol::build_identify;
use discord_gateway::protocol::heartbeat_frame;
use discord_gateway::protocol::negotiate;
use discord_gateway::writer::HeartbeatWriter;

const HEARTBEAT: &str = "{\"op\": 1, \"d\": null}";

fn text(s: &str) -> Frame {
    Frame::Text(String::from(s))
}

#[test]
fn hello_with_positive_interval_negotiates_that_interval() {
    let frame = text("{\"op\":10,\"d\":{\"heartbeat_interval\":41250}}");
    let r = negotiate(&frame, "my-token").expect("negotiation should succeed");
    assert_eq!(r.0, 41250);
    assert!(r.1.contains("my-token"));
}

#[test]
fn hello_interval_is_returned_verbatim() {
    let frame = text("{\"op\": 10, \"d\": {\"heartbeat_interval\": 1}}");
    let r = negotiate(&frame, "t").expect("negotiation should succeed");
    assert_eq!(r.0, 1);
}

#[test]
fn hello_with_zero_interval_is_invalid_interval() {
    let frame = text("{\"op\":10,\"d\":{\"heartbeat_interval\":0}}");
    let e = negotiate(&frame, "t").expect_err("zero interval must be refused");
    assert_eq!(e, NegotiationError::InvalidInterval);
}

#[test]
fn hello_with_missing_interval_is_invalid_interval() {
    let frame = text("{\"op\":10,\"d\":{}}");
    let e = negotiate(&frame, "t").expect_err("missing interval must be refused");
    assert_eq!(e, NegotiationError::InvalidInterval);
}

#[test]
fn non_hello_opcode_is_unexpected_first_frame() {
    let frame = text("{\"op\":11,\"d\":{\"heartbeat_interval\":41250}}");
    let e = negotiate(&frame, "t").expect_err("non-Hello opcode must be refused");
    assert_eq!(e, NegotiationError::UnexpectedFirstFrame);
}

#[test]
fn malformed_json_is_unexpected_first_frame() {
    let frame = text("not json at all");
    let e = negotiate(&frame, "t").expect_err("malformed text must be refused");
    assert_eq!(e, NegotiationError::UnexpectedFirstFrame);
}

#[test]
fn non_text_frame_is_unexpected_first_frame() {
    let e = negotiate(&Frame::Other, "t").expect_err("a non-text frame must be refused");
    assert_eq!(e, NegotiationError::UnexpectedFirstFrame);
}

#[test]
fn identify_carries_the_token_and_fixed_properties() {
    let identify = build_identify("abc123");
    assert_eq!(
        identify,
        "{\"op\": 2, \"d\": {\"token\": \"abc123\", \"intents\": 0, \"properties\": \
         {\"$os\": \"linux\", \"$browser\": \"discord-rs\", \"$device\": \"discord-rs\"}}}"
    );
}

#[test]
fn identify_escapes_the_token() {
    let identify = build_identify("a\"b\\c");
    assert!(identify.contains("\"token\": \"a\\\"b\\\\c\""));
}

#[test]
fn heartbeat_frame_is_opcode_one_with_null_payload() {
    assert_eq!(heartbeat_frame(), HEARTBEAT);
}

#[test]
fn idle_window_of_k_periods_emits_exactly_k_heartbeats() {
    let mut w = HeartbeatWriter::new(41250);
    let mut ch = OutboundChannel::new();
    w.observe_idle_window(&mut ch, 4);
    assert_eq!(w.sent.len(), 4);
    for (i, f) in w.sent.iter().enumerate() {
        assert_eq!(f.at, 41250 * (i as u64 + 1));
        assert_eq!(f.frame, HEARTBEAT);
    }
    assert_eq!(w.now, 165000);
    assert!(!w.terminated);
}

#[test]
fn an_empty_observation_window_emits_nothing() {
    let mut w = HeartbeatWriter::new(41250);
    let mut ch = OutboundChannel::new();
    w.observe_idle_window(&mut ch, 0);
    assert_eq!(w.sent.len(), 0);
    assert_eq!(w.now, 0);
    assert!(!w.terminated);
}

#[test]
fn the_outbound_channel_is_first_in_first_out() {
    let mut ch = OutboundChannel::new();
    ch.enqueue(ThreadEvent::SendMessage(String::from("first")));
    ch.enqueue(ThreadEvent::SendMessage(String::from("second")));
    match ch.try_recv() {
        RecvOutcome::Event(ThreadEvent::SendMessage(p)) => assert_eq!(p, "first"),
        _ => panic!("expected the oldest event"),
    }
    match ch.try_recv() {
        RecvOutcome::Event(ThreadEvent::SendMessage(p)) => assert_eq!(p, "second"),
        _ => panic!("expected the second event"),
    }
    assert!(matches!(ch.try_recv(), RecvOutcome::Empty));
    ch.close();
    assert!(matches!(ch.try_recv(), RecvOutcome::Disconnected));
}

#[test]
fn heartbeats_keep_their_cadence_across_relays() {
    let mut w = HeartbeatWriter::new(100);
    let mut ch = OutboundChannel::new();
    w.run_iteration(&mut ch);
    ch.enqueue(ThreadEvent::SendMessage(String::from("X")));
    w.run_iteration(&mut ch);
    w.run_iteration(&mut ch);
    let beats: Vec<u64> = w
        .sent
        .iter()
        .filter(|f| f.frame == HEARTBEAT)
        .map(|f| f.at)
        .collect();
    assert_eq!(beats, vec![100, 200, 300]);
}

#[test]
fn enqueued_frames_are_relayed_in_order_around_one_heartbeat() {
    let mut w = HeartbeatWriter::new(100);
    let mut ch = OutboundChannel::new();
    ch.enqueue(ThreadEvent::SendMessage(String::from("A")));
    ch.enqueue(ThreadEvent::SendMessage(String::from("B")));
    ch.enqueue(ThreadEvent::SendMessage(String::from("C")));
    w.run_iteration(&mut ch);
    assert_eq!(w.sent.len(), 4);
    assert_eq!(w.sent[0].frame, "A");
    assert_eq!(w.sent[1].frame, "B");
    assert_eq!(w.sent[2].frame, "C");
    assert_eq!(w.sent[3].frame, HEARTBEAT);
    assert_eq!(w.sent[0].at, 0);
    assert_eq!(w.sent[2].at, 0);
    assert_eq!(w.sent[3].at, 100);
}

#[test]
fn abort_stops_the_writer_and_a_second_abort_is_a_no_op() {
    let mut w = HeartbeatWriter::new(100);
    let mut ch = OutboundChannel::new();
    ch.enqueue(ThreadEvent::Abort);
    ch.enqueue(ThreadEvent::Abort);
    w.run_iteration(&mut ch);
    assert!(w.terminated);
    assert_eq!(w.sent.len(), 0, "no heartbeat after an abort");
    w.run_iteration(&mut ch);
    assert!(w.terminated);
    assert_eq!(w.sent.len(), 0);
    assert_eq!(w.now, 0);
}

#[test]
fn abort_takes_effect_before_later_messages_are_relayed() {
    let mut w = HeartbeatWriter::new(100);
    let mut ch = OutboundChannel::new();
    ch.enqueue(ThreadEvent::SendMessage(String::from("early")));
    ch.enqueue(ThreadEvent::Abort);
    ch.enqueue(ThreadEvent::SendMessage(String::from("late")));
    w.run_iteration(&mut ch);
    assert!(w.terminated);
    assert_eq!(w.sent.len(), 1);
    assert_eq!(w.sent[0].frame, "early");
}

#[test]
fn dropped_producer_stops_the_writer() {
    let mut w = HeartbeatWriter::new(100);
    let mut ch = OutboundChannel::new();
    ch.close();
    w.run_iteration(&mut ch);
    assert!(w.terminated);
    assert_eq!(w.sent.len(), 0);
}

#[test]
fn read_loop_dispatches_in_order_and_ends_once_on_clean_close() {
    let mut c = GatewayClient::new(String::from("t"));
    c.start();
    let hello = text("{\"op\":10,\"d\":{\"heartbeat_interval\":100}}");
    c.complete_negotiation(&hello).expect("negotiation should succeed");
    let inputs = vec![
        ReadInput::Frame(text("a")),
        ReadInput::Frame(Frame::Other),
        ReadInput::Frame(text("b")),
        ReadInput::End,
        ReadInput::Frame(text("after the close")),
    ];
    let (dispatched, reason) = c.read_session(inputs);
    assert_eq!(dispatched.len(), 2);
    assert_eq!(dispatched[0], "a");
    assert_eq!(dispatched[1], "b");
    assert_eq!(reason, Some(CloseReason::CleanClose));
    assert_eq!(c.state, ClientState::Closing);
}

#[test]
fn read_error_yields_a_read_error_terminal_state() {
    let mut c = GatewayClient::new(String::from("t"));
    c.start();
    let hello = text("{\"op\":10,\"d\":{\"heartbeat_interval\":100}}");
    c.complete_negotiation(&hello).expect("negotiation should succeed");
    let (dispatched, reason) = c.read_session(vec![ReadInput::Failed]);
    assert_eq!(dispatched.len(), 0);
    assert_eq!(reason, Some(CloseReason::ReadError));
    assert_eq!(c.state, ClientState::Closing);
}

#[test]
fn a_stream_without_a_close_leaves_the_client_in_steady_state() {
    let mut c = GatewayClient::new(String::from("t"));
    c.start();
    let hello = text("{\"op\":10,\"d\":{\"heartbeat_interval\":100}}");
    c.complete_negotiation(&hello).expect("negotiation should succeed");
    let (dispatched, reason) = c.read_session(vec![ReadInput::Frame(text("x"))]);
    assert_eq!(dispatched.len(), 1);
    assert_eq!(reason, None);
    assert_eq!(c.state, ClientState::SteadyState);
}

#[test]
fn failed_negotiation_tears_the_connection_down() {
    let mut c = GatewayClient::new(String::from("t"));
    c.start();
    let e = c
        .complete_negotiation(&text("{\"op\":10,\"d\":{\"heartbeat_interval\":0}}"))
        .expect_err("zero interval must be refused");
    assert_eq!(e, NegotiationError::InvalidInterval);
    assert_eq!(c.state, ClientState::Disconnected);
    assert_eq!(c.heartbeat_interval, 0);
}

#[test]
fn client_abort_is_idempotent() {
    let mut c = GatewayClient::new(String::from("t"));
    c.start();
    let hello = text("{\"op\":10,\"d\":{\"heartbeat_interval\":100}}");
    c.complete_negotiation(&hello).expect("negotiation should succeed");
    c.abort();
    assert_eq!(c.state, ClientState::Closing);
    c.abort();
    assert_eq!(c.state, ClientState::Closing);
    c.finish_close();
    assert_eq!(c.state, ClientState::Disconnected);
}

#[test]
fn end_to_end_handshake_heartbeat_and_mid_interval_relay() {
    // Connect and negotiate on the documented Hello.
    let mut c = GatewayClient::new(String::from("the-user-token"));
    c.start();
    let hello = text("{\"op\":10,\"d\":{\"heartbeat_interval\":41250}}");
    let identify = c.complete_negotiation(&hello).expect("negotiation should succeed");
    assert!(identify.contains("the-user-token"));
    assert!(identify.starts_with("{\"op\": 2,"));
    assert_eq!(c.heartbeat_interval, 41250);
    assert_eq!(c.state, ClientState::SteadyState);

    // The Identify travels through the outbound channel, so it goes out
    // first; the writer then beats once, 41250 ms in.
    let mut w = HeartbeatWriter::new(c.heartbeat_interval);
    let mut ch = OutboundChannel::new();
    ch.enqueue(ThreadEvent::SendMessage(identify));
    w.run_iteration(&mut ch);
    assert_eq!(w.sent.len(), 2);
    assert!(w.sent[0].frame.contains("the-user-token"));
    assert_eq!(w.sent[0].at, 0);
    assert_eq!(w.sent[1].at, 41250);
    assert_eq!(w.sent[1].frame, HEARTBEAT);

    // A frame enqueued mid-interval is relayed before the next heartbeat.
    ch.enqueue(ThreadEvent::SendMessage(String::from("{\"op\":1,\"d\":null}")));
    w.run_iteration(&mut ch);
    assert_eq!(w.sent.len(), 4);
    assert_eq!(w.sent[2].frame, "{\"op\":1,\"d\":null}");
    assert!(w.sent[2].at < w.sent[3].at);
    assert_eq!(w.sent[3].at, 82500);
    assert_eq!(w.sent[3].frame, HEARTBEAT);
}
