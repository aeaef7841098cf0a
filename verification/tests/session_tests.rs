use voice_input::protocol::{build_start_session, build_start_task, SessionConfig};
use voice_input::response::{AsrResponse, ResponseType};
use voice_input::session::{
    Handshake, HandshakeAction, HandshakeEvent, InboundAction, InboundEvent, InboundPump,
    OutboundEvent, OutboundPump, SessionErrorKind, SessionState,
};
use voice_input::constants::FRAME_DURATION_MS;

/// What an envelope of the outbound pump holds.
#[derive(Debug, Default, PartialEq)]
struct Sent {
    token: String,
    service: String,
    method: String,
    payload: String,
    audio: Vec<u8>,
    request_id: String,
    frame_state: u64,
}

fn read(bytes: &[u8]) -> Sent {
    let mut buf = bytes;
    let mut sent = Sent::default();
    while !buf.is_empty() {
        let (tag, wire) = prost::encoding::decode_key(&mut buf).expect("key");
        if wire == prost::encoding::WireType::Varint {
            let value = prost::encoding::decode_varint(&mut buf).expect("value");
            assert_eq!(tag, 7);
            sent.frame_state = value;
            continue;
        }
        assert_eq!(wire, prost::encoding::WireType::LengthDelimited);
        let len = prost::encoding::decode_varint(&mut buf).expect("length") as usize;
        let content = buf[..len].to_vec();
        buf = &buf[len..];
        match tag {
            1 => sent.token = String::from_utf8(content).expect("utf-8"),
            2 => sent.service = String::from_utf8(content).expect("utf-8"),
            3 => sent.method = String::from_utf8(content).expect("utf-8"),
            4 => sent.payload = String::from_utf8(content).expect("utf-8"),
            5 => sent.audio = content,
            6 => sent.request_id = String::from_utf8(content).expect("utf-8"),
            other => panic!("unexpected field {}", other),
        }
    }
    sent
}

fn event(kind: ResponseType) -> AsrResponse {
    AsrResponse::bare(kind)
}

fn error(message: &str) -> AsrResponse {
    let mut response = AsrResponse::bare(ResponseType::Error);
    response.error_msg = message.to_string();
    response
}

fn handshake() -> Handshake {
    Handshake::new("rid".to_string(), "tok".to_string(), "dev".to_string())
}

fn sent_bytes(action: HandshakeAction) -> Vec<u8> {
    match action {
        HandshakeAction::Send(bytes) => bytes,
        other => panic!("expected an envelope, got {:?}", other),
    }
}

fn failure(action: HandshakeAction) -> (SessionErrorKind, String) {
    match action {
        HandshakeAction::Fail(error) => (error.kind, error.message),
        other => panic!("expected a failure, got {:?}", other),
    }
}

#[test]
fn handshake_runs_through_its_states() {
    let mut h = handshake();
    assert_eq!(h.state(), SessionState::Disconnected);
    assert_eq!(h.request_id(), "rid");
    assert_eq!(h.token(), "tok");
    assert!(matches!(h.step(HandshakeEvent::Start), HandshakeAction::OpenConnection));
    assert_eq!(h.state(), SessionState::Connecting);
    let first = sent_bytes(h.step(HandshakeEvent::Connected));
    assert_eq!(first, build_start_task("rid", "tok"));
    assert_eq!(h.state(), SessionState::AwaitingTaskStarted);
    let second = sent_bytes(h.step(HandshakeEvent::Reply(event(ResponseType::TaskStarted))));
    assert_eq!(second, build_start_session("rid", "tok", &SessionConfig::new("dev")));
    assert_eq!(h.state(), SessionState::AwaitingSessionStarted);
    let last = h.step(HandshakeEvent::Reply(event(ResponseType::SessionStarted)));
    assert!(matches!(last, HandshakeAction::StartStreaming));
    assert_eq!(h.state(), SessionState::Streaming);
    assert!(matches!(h.step(HandshakeEvent::Connected), HandshakeAction::Nothing));
    assert_eq!(h.state(), SessionState::Streaming);
}

#[test]
fn handshake_accepts_any_reply_but_an_error() {
    let mut h = handshake();
    h.step(HandshakeEvent::Start);
    h.step(HandshakeEvent::Connected);
    sent_bytes(h.step(HandshakeEvent::Reply(event(ResponseType::Unknown))));
    let last = h.step(HandshakeEvent::Reply(event(ResponseType::Heartbeat)));
    assert!(matches!(last, HandshakeAction::StartStreaming));
}

#[test]
fn handshake_fails_when_the_task_is_refused() {
    let mut h = handshake();
    h.step(HandshakeEvent::Start);
    h.step(HandshakeEvent::Connected);
    let (kind, message) = failure(h.step(HandshakeEvent::Reply(error("bad token"))));
    assert_eq!(kind, SessionErrorKind::Handshake);
    assert_eq!(message, "StartTask failed: bad token");
    assert_eq!(h.state(), SessionState::Error);
    let after = h.step(HandshakeEvent::Reply(event(ResponseType::TaskStarted)));
    assert!(matches!(after, HandshakeAction::Nothing));
    assert_eq!(h.state(), SessionState::Error);
}

#[test]
fn handshake_fails_when_the_session_is_refused() {
    let mut h = handshake();
    h.step(HandshakeEvent::Start);
    h.step(HandshakeEvent::Connected);
    h.step(HandshakeEvent::Reply(event(ResponseType::TaskStarted)));
    let (kind, message) = failure(h.step(HandshakeEvent::Reply(error("quota"))));
    assert_eq!(kind, SessionErrorKind::Handshake);
    assert_eq!(message, "StartSession failed: quota");
    assert_eq!(h.state(), SessionState::Error);
}

#[test]
fn handshake_fails_when_the_connection_fails() {
    let mut h = handshake();
    h.step(HandshakeEvent::Start);
    let (kind, message) = failure(h.step(HandshakeEvent::ConnectFailed("refused".to_string())));
    assert_eq!(kind, SessionErrorKind::Connection);
    assert_eq!(message, "refused");
    assert_eq!(h.state(), SessionState::Error);
}

#[test]
fn handshake_fails_when_the_connection_is_lost() {
    let mut h = handshake();
    h.step(HandshakeEvent::Start);
    h.step(HandshakeEvent::Connected);
    let (kind, message) = failure(h.step(HandshakeEvent::ConnectionLost));
    assert_eq!(kind, SessionErrorKind::Connection);
    assert_eq!(message, "connection lost");
    assert_eq!(h.state(), SessionState::Error);
}

#[test]
fn handshake_fails_when_an_envelope_cannot_be_sent() {
    let mut h = handshake();
    h.step(HandshakeEvent::Start);
    h.step(HandshakeEvent::Connected);
    h.step(HandshakeEvent::OtherMessage);
    assert_eq!(h.state(), SessionState::AwaitingSessionStarted);
    let (kind, message) = failure(h.step(HandshakeEvent::TransmitFailed("closed".to_string())));
    assert_eq!(kind, SessionErrorKind::Transmit);
    assert_eq!(message, "closed");
    assert_eq!(h.state(), SessionState::Error);
}

#[test]
fn handshake_ignores_what_it_does_not_await() {
    let mut h = handshake();
    assert!(matches!(h.step(HandshakeEvent::Connected), HandshakeAction::Nothing));
    assert!(matches!(h.step(HandshakeEvent::ConnectionLost), HandshakeAction::Nothing));
    assert_eq!(h.state(), SessionState::Disconnected);
    h.step(HandshakeEvent::Start);
    let early = h.step(HandshakeEvent::Reply(event(ResponseType::TaskStarted)));
    assert!(matches!(early, HandshakeAction::Nothing));
    assert_eq!(h.state(), SessionState::Connecting);
}

fn run_frames(count: usize, start: u64) -> Vec<Sent> {
    let mut pump = OutboundPump::new("rid".to_string(), "tok".to_string(), start);
    let mut sent = Vec::new();
    for i in 0..count {
        assert!(pump.has_room());
        let envelopes = pump.step(OutboundEvent::Frame(vec![i as u8 + 1; 3]));
        assert_eq!(envelopes.len(), 1);
        sent.extend(envelopes.iter().map(|e| read(e)));
    }
    assert_eq!(pump.frames_sent(), count as u64);
    assert_eq!(pump.state(), SessionState::Streaming);
    let closing = pump.step(OutboundEvent::InputClosed);
    assert_eq!(closing.len(), 2);
    sent.extend(closing.iter().map(|e| read(e)));
    assert_eq!(pump.state(), SessionState::Finishing);
    assert!(pump.step(OutboundEvent::Frame(vec![1])).is_empty());
    assert!(pump.step(OutboundEvent::InputClosed).is_empty());
    assert_eq!(pump.state(), SessionState::Finishing);
    sent
}

fn metadata(timestamp: u64) -> String {
    format!("{{\"extra\":{{}},\"timestamp_ms\":{}}}", timestamp)
}

#[test]
fn three_frames_then_close() {
    let sent = run_frames(3, 1000);
    assert_eq!(sent.len(), 5);
    for (i, envelope) in sent.iter().take(3).enumerate() {
        assert_eq!(envelope.method, "TaskRequest");
        assert_eq!(envelope.service, "ASR");
        assert_eq!(envelope.token, "");
        assert_eq!(envelope.request_id, "rid");
        assert_eq!(envelope.audio, vec![i as u8 + 1; 3]);
        assert_eq!(envelope.frame_state, if i == 0 { 1 } else { 2 });
        assert_eq!(envelope.payload, metadata(1000 + 20 * i as u64));
    }
    assert_eq!(sent[3].method, "TaskRequest");
    assert_eq!(sent[3].frame_state, 3);
    assert_eq!(sent[3].audio, vec![0u8; 100]);
    assert_eq!(sent[3].payload, metadata(1060));
    assert_eq!(
        sent[4],
        Sent {
            token: "tok".to_string(),
            service: "ASR".to_string(),
            method: "FinishSession".to_string(),
            request_id: "rid".to_string(),
            ..Sent::default()
        }
    );
}

#[test]
fn one_frame_is_just_first() {
    let sent = run_frames(1, 0);
    assert_eq!(sent.len(), 3);
    assert_eq!(sent[0].frame_state, 1);
    assert_eq!(sent[0].payload, metadata(0));
    assert_eq!(sent[1].frame_state, 3);
    assert_eq!(sent[1].payload, metadata(20));
    assert_eq!(sent[2].method, "FinishSession");
}

#[test]
fn no_frame_still_closes_the_stream() {
    let sent = run_frames(0, 77);
    assert_eq!(sent.len(), 2);
    assert_eq!(sent[0].frame_state, 3);
    assert_eq!(sent[0].audio, vec![0u8; 100]);
    assert_eq!(sent[0].payload, metadata(77));
    assert_eq!(sent[1].method, "FinishSession");
}

#[test]
fn timestamps_are_spaced_by_the_frame_duration() {
    assert_eq!(FRAME_DURATION_MS, 20);
    let sent = run_frames(60, 1_700_000_000_000);
    assert_eq!(sent.len(), 62);
    for i in 0..61 {
        assert_eq!(sent[i].payload, metadata(1_700_000_000_000 + 20 * i as u64));
    }
    let states: Vec<u64> = sent.iter().map(|e| e.frame_state).collect();
    assert_eq!(states[0], 1);
    assert!(states[1..60].iter().all(|s| *s == 2));
    assert_eq!(states[60], 3);
    assert_eq!(states[61], 0);
}

#[test]
fn transmit_failure_ends_the_pump() {
    let mut pump = OutboundPump::new("rid".to_string(), "tok".to_string(), 0);
    assert_eq!(pump.step(OutboundEvent::Frame(vec![1])).len(), 1);
    assert!(pump.step(OutboundEvent::TransmitFailed).is_empty());
    assert_eq!(pump.state(), SessionState::Error);
    assert!(pump.step(OutboundEvent::Frame(vec![2])).is_empty());
    assert!(pump.step(OutboundEvent::InputClosed).is_empty());
    assert_eq!(pump.state(), SessionState::Error);
    assert_eq!(pump.frames_sent(), 1);
}

#[test]
fn pump_knows_when_the_clock_runs_out() {
    let mut pump = OutboundPump::new(String::new(), String::new(), u64::MAX - 30);
    assert!(pump.has_room());
    pump.step(OutboundEvent::Frame(vec![1]));
    assert!(!pump.has_room());
    let closing = pump.step(OutboundEvent::InputClosed);
    assert_eq!(read(&closing[0]).payload, metadata(u64::MAX - 10));
}

fn forwarded(action: InboundAction) -> Option<(AsrResponse, bool)> {
    match action {
        InboundAction::Forward(response) => Some((response, false)),
        InboundAction::ForwardAndStop(response) => Some((response, true)),
        InboundAction::Skip | InboundAction::Stop => None,
    }
}

#[test]
fn heartbeats_are_never_forwarded() {
    let mut pump = InboundPump::new();
    let kinds = [
        ResponseType::Heartbeat,
        ResponseType::InterimResult,
        ResponseType::Heartbeat,
        ResponseType::VadStart,
        ResponseType::FinalResult,
        ResponseType::Unknown,
        ResponseType::TaskStarted,
        ResponseType::SessionStarted,
        ResponseType::Heartbeat,
    ];
    let mut seen = Vec::new();
    for kind in kinds {
        let action = pump.step(InboundEvent::Response(event(kind)));
        if kind == ResponseType::Heartbeat {
            assert!(matches!(action, InboundAction::Skip));
        }
        if let Some((response, stop)) = forwarded(action) {
            assert!(!stop);
            seen.push(response.response_type);
        }
        assert_eq!(pump.state(), SessionState::Streaming);
    }
    assert_eq!(
        seen,
        vec![
            ResponseType::InterimResult,
            ResponseType::VadStart,
            ResponseType::FinalResult,
            ResponseType::Unknown,
            ResponseType::TaskStarted,
            ResponseType::SessionStarted,
        ]
    );
}

#[test]
fn an_error_is_forwarded_once_and_ends_the_pump() {
    let mut pump = InboundPump::new();
    assert!(forwarded(pump.step(InboundEvent::Response(event(ResponseType::InterimResult))))
        .is_some());
    let (response, stop) =
        forwarded(pump.step(InboundEvent::Response(error("boom")))).expect("forwarded");
    assert!(stop);
    assert_eq!(response.response_type, ResponseType::Error);
    assert_eq!(response.error_msg, "boom");
    assert_eq!(pump.state(), SessionState::Error);
    for kind in [ResponseType::FinalResult, ResponseType::Error, ResponseType::SessionFinished] {
        let action = pump.step(InboundEvent::Response(event(kind)));
        assert!(matches!(action, InboundAction::Stop));
    }
    assert_eq!(pump.state(), SessionState::Error);
}

#[test]
fn the_end_of_the_session_closes_the_pump() {
    let mut pump = InboundPump::new();
    let (response, stop) = forwarded(
        pump.step(InboundEvent::Response(event(ResponseType::SessionFinished))),
    )
    .expect("forwarded");
    assert!(stop);
    assert_eq!(response.response_type, ResponseType::SessionFinished);
    assert_eq!(pump.state(), SessionState::Closed);
    assert!(matches!(pump.step(InboundEvent::OtherMessage), InboundAction::Stop));
}

#[test]
fn a_consumer_that_left_ends_the_pump_silently() {
    let mut pump = InboundPump::new();
    assert!(matches!(pump.step(InboundEvent::OtherMessage), InboundAction::Skip));
    assert!(matches!(pump.step(InboundEvent::ConsumerGone), InboundAction::Stop));
    assert_eq!(pump.state(), SessionState::Closed);
    let later = pump.step(InboundEvent::Response(event(ResponseType::FinalResult)));
    assert!(matches!(later, InboundAction::Stop));
}

#[test]
fn a_lost_connection_ends_the_pump() {
    let mut pump = InboundPump::new();
    assert!(matches!(pump.step(InboundEvent::StreamEnded), InboundAction::Stop));
    assert_eq!(pump.state(), SessionState::Error);
}
