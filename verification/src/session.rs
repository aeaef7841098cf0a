//! The streaming session: the handshake and the two pumps as step
//! functions from state and event to next state and action.
//!
//! Whoever drives a session owns the connection and the queues. It reports
//! what happened as an event and performs the action it gets back; every
//! decision of the protocol is taken here.

use vstd::prelude::*;
use crate::constants::FRAME_DURATION_MS;
use crate::protocol::{
    build_finish_session, build_start_session, build_start_task, build_task_request,
    finish_session_request, standard_session, start_session_request, start_task_request,
    task_request, FrameState, SessionConfig, CLOSING_FRAME_LEN,
};
use crate::response::{AsrResponse, ResponseType};

verus! {

/// Where a session stands.
#[derive(Clone, Copy, Debug, PartialEq, Eq, Structural)]
pub enum SessionState {
    Disconnected,
    Connecting,
    AwaitingTaskStarted,
    AwaitingSessionStarted,
    Streaming,
    Finishing,
    Closed,
    Error,
}

/// What went wrong with a session.
#[derive(Clone, Copy, Debug, PartialEq, Eq, Structural)]
pub enum SessionErrorKind {
    /// The connection could not be set up, or was lost.
    Connection,
    /// The service turned the task or the session down.
    Handshake,
    /// An envelope could not be sent.
    Transmit,
}

/// A failure of a session, with the message that came with it.
#[derive(Debug)]
pub struct SessionError {
    pub kind: SessionErrorKind,
    pub message: String,
}

/// What the driver of a handshake reports.
#[derive(Debug)]
pub enum HandshakeEvent {
    /// The session is to begin.
    Start,
    /// The connection stands.
    Connected,
    /// The connection could not be set up.
    ConnectFailed(String),
    /// The service answered with this event.
    Reply(AsrResponse),
    /// The service answered with something that is no envelope.
    OtherMessage,
    /// The connection ended while an answer was awaited.
    ConnectionLost,
    /// The envelope handed out last could not be sent.
    TransmitFailed(String),
}

/// What the driver of a handshake is to do next.
#[derive(Debug)]
pub enum HandshakeAction {
    /// Nothing: the event was not awaited.
    Nothing,
    /// Open the connection.
    OpenConnection,
    /// Send this envelope and await one answer.
    Send(Vec<u8>),
    /// Start the two pumps.
    StartStreaming,
    /// Give up and report this failure.
    Fail(SessionError),
}

/// An action of the handshake, as mathematical values.
pub enum Planned {
    Nothing,
    OpenConnection,
    Send(Seq<u8>),
    StartStreaming,
    Fail(SessionErrorKind, Seq<char>),
}

impl View for HandshakeAction {
    type V = Planned;

    open spec fn view(&self) -> Planned {
        match self {
            HandshakeAction::Nothing => Planned::Nothing,
            HandshakeAction::OpenConnection => Planned::OpenConnection,
            HandshakeAction::Send(bytes) => Planned::Send(bytes@),
            HandshakeAction::StartStreaming => Planned::StartStreaming,
            HandshakeAction::Fail(error) => Planned::Fail(error.kind, error.message@),
        }
    }
}

/// What a handshake holds, as mathematical values.
pub struct HandshakeView {
    pub state: SessionState,
    pub request_id: Seq<char>,
    pub token: Seq<char>,
    pub device_id: Seq<char>,
}

/// The handshake of one session.
#[derive(Debug)]
pub struct Handshake {
    state: SessionState,
    request_id: String,
    token: String,
    device_id: String,
}

impl View for Handshake {
    type V = HandshakeView;

    closed spec fn view(&self) -> HandshakeView {
        HandshakeView {
            state: self.state,
            request_id: self.request_id@,
            token: self.token@,
            device_id: self.device_id@,
        }
    }
}

/// The envelope that opens the task of the handshake `h`.
pub open spec fn start_task_envelope(h: HandshakeView) -> Seq<u8> {
    start_task_request(h.request_id, h.token).encoded()
}

/// The envelope that opens the session of the handshake `h`, with the
/// standard configuration for its device.
pub open spec fn start_session_envelope(h: HandshakeView) -> Seq<u8> {
    start_session_request(
        h.request_id,
        h.token,
        standard_session(h.device_id).document(),
    ).encoded()
}

/// What an answer to the envelope named `step` leads to: a failure with the
/// message of the service where the answer is an error, else `accepted`.
pub open spec fn after_reply(
    reply: AsrResponse,
    step: Seq<char>,
    accepted: (SessionState, Planned),
) -> (SessionState, Planned) {
    if reply.response_type == ResponseType::Error {
        (
            SessionState::Error,
            Planned::Fail(SessionErrorKind::Handshake, step + " failed: "@ + reply.error_msg@),
        )
    } else {
        accepted
    }
}

/// What an event leads to while an answer is awaited; `accepted` is where
/// an answer that is no error leads.
pub open spec fn while_awaiting(
    state: SessionState,
    event: HandshakeEvent,
    step: Seq<char>,
    accepted: (SessionState, Planned),
) -> (SessionState, Planned) {
    match event {
        HandshakeEvent::Reply(reply) => after_reply(reply, step, accepted),
        HandshakeEvent::OtherMessage => accepted,
        HandshakeEvent::ConnectionLost => (
            SessionState::Error,
            Planned::Fail(SessionErrorKind::Connection, "connection lost"@),
        ),
        HandshakeEvent::TransmitFailed(reason) => (
            SessionState::Error,
            Planned::Fail(SessionErrorKind::Transmit, reason@),
        ),
        _ => (state, Planned::Nothing),
    }
}

/// The state that follows `event` in the handshake `h`, and the action.
/// An event that the state does not await changes nothing.
pub open spec fn handshake_next(h: HandshakeView, event: HandshakeEvent) -> (SessionState, Planned) {
    match h.state {
        SessionState::Disconnected => match event {
            HandshakeEvent::Start => (SessionState::Connecting, Planned::OpenConnection),
            _ => (h.state, Planned::Nothing),
        },
        SessionState::Connecting => match event {
            HandshakeEvent::Connected => (
                SessionState::AwaitingTaskStarted,
                Planned::Send(start_task_envelope(h)),
            ),
            HandshakeEvent::ConnectFailed(reason) => (
                SessionState::Error,
                Planned::Fail(SessionErrorKind::Connection, reason@),
            ),
            _ => (h.state, Planned::Nothing),
        },
        SessionState::AwaitingTaskStarted => while_awaiting(
            h.state,
            event,
            "StartTask"@,
            (SessionState::AwaitingSessionStarted, Planned::Send(start_session_envelope(h))),
        ),
        SessionState::AwaitingSessionStarted => while_awaiting(
            h.state,
            event,
            "StartSession"@,
            (SessionState::Streaming, Planned::StartStreaming),
        ),
        _ => (h.state, Planned::Nothing),
    }
}

/// The failure of kind `kind` with the message `message`.
fn failure(kind: SessionErrorKind, message: String) -> (action: HandshakeAction)
    ensures
        action@ == Planned::Fail(kind, message@),
{
    HandshakeAction::Fail(SessionError { kind, message })
}

impl Handshake {
    /// A handshake that has not begun, for one request id, one bearer token
    /// and one device.
    pub fn new(request_id: String, token: String, device_id: String) -> (handshake: Handshake)
        ensures
            handshake@ == (HandshakeView {
                state: SessionState::Disconnected,
                request_id: request_id@,
                token: token@,
                device_id: device_id@,
            }),
    {
        Handshake { state: SessionState::Disconnected, request_id, token, device_id }
    }

    /// Where the handshake stands.
    pub fn state(&self) -> (state: SessionState)
        ensures
            state == self@.state,
    {
        self.state
    }

    /// The request id of the session.
    pub fn request_id(&self) -> (id: &str)
        ensures
            id@ == self@.request_id,
    {
        self.request_id.as_str()
    }

    /// The bearer token of the session.
    pub fn token(&self) -> (token: &str)
        ensures
            token@ == self@.token,
    {
        self.token.as_str()
    }

    /// What follows an answer to the envelope named `step`.
    fn on_reply(&mut self, reply: AsrResponse, step: &str, ready: bool) -> (action: HandshakeAction)
        requires
            ready ==> old(self)@.state == SessionState::AwaitingSessionStarted,
            !ready ==> old(self)@.state == SessionState::AwaitingTaskStarted,
            ready ==> step@ == "StartSession"@,
            !ready ==> step@ == "StartTask"@,
        ensures
            final(self)@ == (HandshakeView {
                state: handshake_next(old(self)@, HandshakeEvent::Reply(reply)).0,
                ..old(self)@
            }),
            action@ == handshake_next(old(self)@, HandshakeEvent::Reply(reply)).1,
    {
        match reply.response_type {
            ResponseType::Error => {
                let mut message = step.to_owned();
                message.append(" failed: ");
                message.append(reply.error_msg.as_str());
                self.state = SessionState::Error;
                failure(SessionErrorKind::Handshake, message)
            },
            _ => self.advance(ready),
        }
    }

    /// Goes on to the next envelope, or to streaming once both are answered.
    fn advance(&mut self, ready: bool) -> (action: HandshakeAction)
        ensures
            final(self)@ == (HandshakeView {
                state: if ready {
                    SessionState::Streaming
                } else {
                    SessionState::AwaitingSessionStarted
                },
                ..old(self)@
            }),
            action@ == if ready {
                Planned::StartStreaming
            } else {
                Planned::Send(start_session_envelope(old(self)@))
            },
    {
        if ready {
            self.state = SessionState::Streaming;
            HandshakeAction::StartStreaming
        } else {
            let config = SessionConfig::new(self.device_id.as_str());
            let envelope = build_start_session(
                self.request_id.as_str(),
                self.token.as_str(),
                &config,
            );
            self.state = SessionState::AwaitingSessionStarted;
            HandshakeAction::Send(envelope)
        }
    }

    /// Takes one event and says what to do next.
    pub fn step(&mut self, event: HandshakeEvent) -> (action: HandshakeAction)
        ensures
            final(self)@ == (HandshakeView {
                state: handshake_next(old(self)@, event).0,
                ..old(self)@
            }),
            action@ == handshake_next(old(self)@, event).1,
    {
        match self.state {
            SessionState::Disconnected => match event {
                HandshakeEvent::Start => {
                    self.state = SessionState::Connecting;
                    HandshakeAction::OpenConnection
                },
                _ => HandshakeAction::Nothing,
            },
            SessionState::Connecting => match event {
                HandshakeEvent::Connected => {
                    let envelope = build_start_task(self.request_id.as_str(), self.token.as_str());
                    self.state = SessionState::AwaitingTaskStarted;
                    HandshakeAction::Send(envelope)
                },
                HandshakeEvent::ConnectFailed(reason) => {
                    self.state = SessionState::Error;
                    failure(SessionErrorKind::Connection, reason)
                },
                _ => HandshakeAction::Nothing,
            },
            SessionState::AwaitingTaskStarted => match event {
                HandshakeEvent::Reply(reply) => self.on_reply(reply, "StartTask", false),
                HandshakeEvent::OtherMessage => self.advance(false),
                HandshakeEvent::ConnectionLost => {
                    self.state = SessionState::Error;
                    failure(SessionErrorKind::Connection, "connection lost".to_owned())
                },
                HandshakeEvent::TransmitFailed(reason) => {
                    self.state = SessionState::Error;
                    failure(SessionErrorKind::Transmit, reason)
                },
                _ => HandshakeAction::Nothing,
            },
            SessionState::AwaitingSessionStarted => match event {
                HandshakeEvent::Reply(reply) => self.on_reply(reply, "StartSession", true),
                HandshakeEvent::OtherMessage => self.advance(true),
                HandshakeEvent::ConnectionLost => {
                    self.state = SessionState::Error;
                    failure(SessionErrorKind::Connection, "connection lost".to_owned())
                },
                HandshakeEvent::TransmitFailed(reason) => {
                    self.state = SessionState::Error;
                    failure(SessionErrorKind::Transmit, reason)
                },
                _ => HandshakeAction::Nothing,
            },
            _ => HandshakeAction::Nothing,
        }
    }
}

/// Position of the frame with the given index: the first one opens the
/// stream, every other stands in the middle.
pub open spec fn frame_position(index: nat) -> FrameState {
    if index == 0 {
        FrameState::First
    } else {
        FrameState::Middle
    }
}

/// Time of the frame with the given index in a stream that began at
/// `start_time`: derived from the index, never read from a clock.
pub open spec fn frame_time(start_time: nat, index: nat) -> nat {
    start_time + index * (FRAME_DURATION_MS as nat)
}

/// Payload of the closing frame: zeros of a fixed length.
pub open spec fn closing_payload() -> Seq<u8> {
    Seq::new(CLOSING_FRAME_LEN as nat, |i: int| 0u8)
}

/// What the driver of the outbound pump reports.
#[derive(Debug)]
pub enum OutboundEvent {
    /// The encoder delivered this frame.
    Frame(Vec<u8>),
    /// The audio input has ended.
    InputClosed,
    /// An envelope handed out before could not be sent.
    TransmitFailed,
}

/// What an outbound pump holds, as mathematical values.
pub struct OutboundView {
    pub state: SessionState,
    pub request_id: Seq<char>,
    pub token: Seq<char>,
    pub start_time: nat,
    pub frame_index: nat,
}

impl OutboundView {
    /// The time of the next frame fits 64 bits.
    pub open spec fn wf(self) -> bool {
        frame_time(self.start_time, self.frame_index) <= u64::MAX
    }

    /// After one more frame the time of the next still fits.
    pub open spec fn has_room(self) -> bool {
        frame_time(self.start_time, self.frame_index + 1) <= u64::MAX
    }

    /// The envelope that carries `frame` as the next frame.
    pub open spec fn audio_envelope(self, frame: Seq<u8>) -> Seq<u8> {
        task_request(
            self.request_id,
            frame,
            frame_position(self.frame_index),
            frame_time(self.start_time, self.frame_index),
        ).encoded()
    }

    /// The envelope that carries the closing frame.
    pub open spec fn closing_envelope(self) -> Seq<u8> {
        task_request(
            self.request_id,
            closing_payload(),
            FrameState::Last,
            frame_time(self.start_time, self.frame_index),
        ).encoded()
    }

    /// The envelope that ends the session.
    pub open spec fn finish_envelope(self) -> Seq<u8> {
        finish_session_request(self.request_id, self.token).encoded()
    }
}

/// The pump after `event`, and the envelopes to transmit, in order. A frame
/// goes out with its position and time; the end of the input gives the
/// closing frame and the end of the session; a failed transmission ends the
/// pump. A pump that no longer streams does nothing.
pub open spec fn outbound_next(p: OutboundView, event: OutboundEvent) -> (
    OutboundView,
    Seq<Seq<u8>>,
) {
    if p.state != SessionState::Streaming {
        (p, Seq::empty())
    } else {
        match event {
            OutboundEvent::Frame(frame) => (
                OutboundView { frame_index: p.frame_index + 1, ..p },
                seq![p.audio_envelope(frame@)],
            ),
            OutboundEvent::InputClosed => (
                OutboundView { state: SessionState::Finishing, ..p },
                seq![p.closing_envelope(), p.finish_envelope()],
            ),
            OutboundEvent::TransmitFailed => (
                OutboundView { state: SessionState::Error, ..p },
                Seq::empty(),
            ),
        }
    }
}

/// The bytes of each envelope of a list.
pub open spec fn envelope_bytes(envelopes: Seq<Vec<u8>>) -> Seq<Seq<u8>> {
    Seq::new(envelopes.len(), |i: int| envelopes[i]@)
}

/// The pump that turns encoded frames into envelopes.
#[derive(Debug)]
pub struct OutboundPump {
    state: SessionState,
    request_id: String,
    token: String,
    start_time: u64,
    frame_index: u64,
}

impl View for OutboundPump {
    type V = OutboundView;

    closed spec fn view(&self) -> OutboundView {
        OutboundView {
            state: self.state,
            request_id: self.request_id@,
            token: self.token@,
            start_time: self.start_time as nat,
            frame_index: self.frame_index as nat,
        }
    }
}

/// `len` zeros.
fn zeros(len: usize) -> (bytes: Vec<u8>)
    ensures
        bytes@ == Seq::new(len as nat, |i: int| 0u8),
{
    let mut bytes: Vec<u8> = Vec::new();
    let mut i: usize = 0;
    while i < len
        invariant
            i <= len,
            bytes@ == Seq::new(i as nat, |j: int| 0u8),
        decreases len - i,
    {
        bytes.push(0u8);
        i += 1;
        assert(bytes@ =~= Seq::new(i as nat, |j: int| 0u8));
    }
    bytes
}

impl OutboundPump {
    /// A pump that streams, with no frame sent yet. `start_time` is the
    /// time in milliseconds at which the stream begins.
    pub fn new(request_id: String, token: String, start_time: u64) -> (pump: OutboundPump)
        ensures
            pump@ == (OutboundView {
                state: SessionState::Streaming,
                request_id: request_id@,
                token: token@,
                start_time: start_time as nat,
                frame_index: 0,
            }),
            pump@.wf(),
    {
        OutboundPump { state: SessionState::Streaming, request_id, token, start_time, frame_index: 0 }
    }

    /// Where the pump stands.
    pub fn state(&self) -> (state: SessionState)
        ensures
            state == self@.state,
    {
        self.state
    }

    /// Number of frames taken so far.
    pub fn frames_sent(&self) -> (count: u64)
        ensures
            count == self@.frame_index,
    {
        self.frame_index
    }

    /// Whether one more frame can be taken.
    pub fn has_room(&self) -> (room: bool)
        requires
            self@.wf(),
        ensures
            room == self@.has_room(),
    {
        let stamp = self.start_time + self.frame_index * (FRAME_DURATION_MS as u64);
        stamp <= u64::MAX - FRAME_DURATION_MS as u64
    }

    /// Takes one event and hands out the envelopes to transmit, in order.
    pub fn step(&mut self, event: OutboundEvent) -> (envelopes: Vec<Vec<u8>>)
        requires
            old(self)@.wf(),
            event is Frame ==> old(self)@.has_room(),
        ensures
            final(self)@ == outbound_next(old(self)@, event).0,
            final(self)@.wf(),
            envelopes@.len() == outbound_next(old(self)@, event).1.len(),
            envelope_bytes(envelopes@) == outbound_next(old(self)@, event).1,
    {
        let mut envelopes: Vec<Vec<u8>> = Vec::new();
        match self.state {
            SessionState::Streaming => {
                let stamp = self.start_time + self.frame_index * (FRAME_DURATION_MS as u64);
                match event {
                    OutboundEvent::Frame(frame) => {
                        let position = if self.frame_index == 0 {
                            FrameState::First
                        } else {
                            FrameState::Middle
                        };
                        envelopes.push(
                            build_task_request(self.request_id.as_str(), frame, position, stamp),
                        );
                        self.frame_index = self.frame_index + 1;
                    },
                    OutboundEvent::InputClosed => {
                        envelopes.push(
                            build_task_request(
                                self.request_id.as_str(),
                                zeros(CLOSING_FRAME_LEN),
                                FrameState::Last,
                                stamp,
                            ),
                        );
                        envelopes.push(
                            build_finish_session(self.request_id.as_str(), self.token.as_str()),
                        );
                        self.state = SessionState::Finishing;
                    },
                    OutboundEvent::TransmitFailed => {
                        self.state = SessionState::Error;
                    },
                }
            },
            _ => {},
        }
        assert(envelope_bytes(envelopes@) =~= outbound_next(old(self)@, event).1);
        envelopes
    }
}

/// What the driver of the inbound pump reports.
#[derive(Debug)]
pub enum InboundEvent {
    /// An envelope came in and was classified as this event.
    Response(AsrResponse),
    /// Something came in that is no envelope.
    OtherMessage,
    /// The connection ended or could not be read.
    StreamEnded,
    /// Nobody takes the events any more.
    ConsumerGone,
}

/// What the driver of the inbound pump is to do next.
#[derive(Debug)]
pub enum InboundAction {
    /// Hand the event to the consumer and read on.
    Forward(AsrResponse),
    /// Hand the event to the consumer and stop reading.
    ForwardAndStop(AsrResponse),
    /// Read on.
    Skip,
    /// Stop reading.
    Stop,
}

/// The state that follows `event` in the inbound pump, and the action.
/// Heartbeats are dropped. An error and the end of the session are handed
/// on and end the pump; every other event is handed on. A pump that no
/// longer streams stops.
pub open spec fn inbound_next(state: SessionState, event: InboundEvent) -> (
    SessionState,
    InboundAction,
) {
    if state != SessionState::Streaming {
        (state, InboundAction::Stop)
    } else {
        match event {
            InboundEvent::Response(response) => match response.response_type {
                ResponseType::Error => (SessionState::Error, InboundAction::ForwardAndStop(response)),
                ResponseType::SessionFinished => (
                    SessionState::Closed,
                    InboundAction::ForwardAndStop(response),
                ),
                ResponseType::Heartbeat => (SessionState::Streaming, InboundAction::Skip),
                _ => (SessionState::Streaming, InboundAction::Forward(response)),
            },
            InboundEvent::OtherMessage => (SessionState::Streaming, InboundAction::Skip),
            InboundEvent::StreamEnded => (SessionState::Error, InboundAction::Stop),
            InboundEvent::ConsumerGone => (SessionState::Closed, InboundAction::Stop),
        }
    }
}

/// The pump that hands classified events to the consumer.
#[derive(Debug)]
pub struct InboundPump {
    state: SessionState,
}

impl View for InboundPump {
    type V = SessionState;

    closed spec fn view(&self) -> SessionState {
        self.state
    }
}

impl InboundPump {
    /// A pump that streams.
    pub fn new() -> (pump: InboundPump)
        ensures
            pump@ == SessionState::Streaming,
    {
        InboundPump { state: SessionState::Streaming }
    }

    /// Where the pump stands.
    pub fn state(&self) -> (state: SessionState)
        ensures
            state == self@,
    {
        self.state
    }

    /// Takes one event and says what to do next.
    pub fn step(&mut self, event: InboundEvent) -> (action: InboundAction)
        ensures
            final(self)@ == inbound_next(old(self)@, event).0,
            action == inbound_next(old(self)@, event).1,
    {
        match self.state {
            SessionState::Streaming => match event {
                InboundEvent::Response(response) => match response.response_type {
                    ResponseType::Error => {
                        self.state = SessionState::Error;
                        InboundAction::ForwardAndStop(response)
                    },
                    ResponseType::SessionFinished => {
                        self.state = SessionState::Closed;
                        InboundAction::ForwardAndStop(response)
                    },
                    ResponseType::Heartbeat => InboundAction::Skip,
                    _ => InboundAction::Forward(response),
                },
                InboundEvent::OtherMessage => InboundAction::Skip,
                InboundEvent::StreamEnded => {
                    self.state = SessionState::Error;
                    InboundAction::Stop
                },
                InboundEvent::ConsumerGone => {
                    self.state = SessionState::Closed;
                    InboundAction::Stop
                },
            },
            _ => InboundAction::Stop,
        }
    }
}

/// What a handshake transmits over a run of events, and where it ends.
pub open spec fn handshake_run(h: HandshakeView, events: Seq<HandshakeEvent>) -> (
    HandshakeView,
    Seq<Seq<u8>>,
)
    decreases events.len(),
{
    if events.len() == 0 {
        (h, Seq::empty())
    } else {
        let (state, action) = handshake_next(h, events[0]);
        let sent = match action {
            Planned::Send(bytes) => seq![bytes],
            _ => Seq::empty(),
        };
        let (end, more) = handshake_run(HandshakeView { state, ..h }, events.drop_first());
        (end, sent + more)
    }
}

/// What an outbound pump transmits over a run of events, and where it ends.
pub open spec fn outbound_run(p: OutboundView, events: Seq<OutboundEvent>) -> (
    OutboundView,
    Seq<Seq<u8>>,
)
    decreases events.len(),
{
    if events.len() == 0 {
        (p, Seq::empty())
    } else {
        let (next, sent) = outbound_next(p, events[0]);
        let (end, more) = outbound_run(next, events.drop_first());
        (end, sent + more)
    }
}

/// What an inbound pump hands to the consumer over a run of events, and
/// where it ends.
pub open spec fn inbound_run(state: SessionState, events: Seq<InboundEvent>) -> (
    SessionState,
    Seq<AsrResponse>,
)
    decreases events.len(),
{
    if events.len() == 0 {
        (state, Seq::empty())
    } else {
        let (next, action) = inbound_next(state, events[0]);
        let handed = match action {
            InboundAction::Forward(response) => seq![response],
            InboundAction::ForwardAndStop(response) => seq![response],
            _ => Seq::empty(),
        };
        let (end, more) = inbound_run(next, events.drop_first());
        (end, handed + more)
    }
}

/// The events of an audio input that delivers `frames` and then closes.
pub open spec fn input_events(frames: Seq<Vec<u8>>) -> Seq<OutboundEvent> {
    Seq::new(frames.len(), |i: int| OutboundEvent::Frame(frames[i])).push(
        OutboundEvent::InputClosed,
    )
}

/// The envelopes that carry `frames`, the first of which has the index
/// `p.frame_index`, each with the position and the time of its index.
pub open spec fn audio_envelopes(p: OutboundView, frames: Seq<Vec<u8>>) -> Seq<Seq<u8>> {
    Seq::new(
        frames.len(),
        |i: int|
            (OutboundView { frame_index: p.frame_index + i as nat, ..p }).audio_envelope(
                frames[i]@,
            ),
    )
}

/// The events of a handshake in which the connection stands and both
/// envelopes are answered.
pub open spec fn accepted_handshake(first: AsrResponse, second: AsrResponse) -> Seq<
    HandshakeEvent,
> {
    seq![
        HandshakeEvent::Start,
        HandshakeEvent::Connected,
        HandshakeEvent::Reply(first),
        HandshakeEvent::Reply(second),
    ]
}

/// The pump with which streaming begins after the handshake `h`.
pub open spec fn first_pump(h: HandshakeView, start_time: nat) -> OutboundView {
    OutboundView {
        state: SessionState::Streaming,
        request_id: h.request_id,
        token: h.token,
        start_time,
        frame_index: 0,
    }
}

/// All that a session transmits whose handshake is answered by `first` and
/// `second` and whose audio input delivers `frames` and closes.
pub open spec fn session_transcript(
    h: HandshakeView,
    first: AsrResponse,
    second: AsrResponse,
    start_time: nat,
    frames: Seq<Vec<u8>>,
) -> Seq<Seq<u8>> {
    handshake_run(h, accepted_handshake(first, second)).1 + outbound_run(
        first_pump(h, start_time),
        input_events(frames),
    ).1
}

/// A handshake whose two envelopes are answered by anything but an error
/// transmits the opening of the task and then the opening of the session,
/// and ends ready to stream.
pub proof fn lemma_handshake_transcript(h: HandshakeView, first: AsrResponse, second: AsrResponse)
    requires
        h.state == SessionState::Disconnected,
        first.response_type != ResponseType::Error,
        second.response_type != ResponseType::Error,
    ensures
        handshake_run(h, accepted_handshake(first, second)) == (
            HandshakeView { state: SessionState::Streaming, ..h },
            seq![start_task_envelope(h), start_session_envelope(h)],
        ),
{
    let e0 = accepted_handshake(first, second);
    let e1 = e0.drop_first();
    let e2 = e1.drop_first();
    let e3 = e2.drop_first();
    let e4 = e3.drop_first();
    let h1 = HandshakeView { state: SessionState::Connecting, ..h };
    let h2 = HandshakeView { state: SessionState::AwaitingTaskStarted, ..h };
    let h3 = HandshakeView { state: SessionState::AwaitingSessionStarted, ..h };
    let h4 = HandshakeView { state: SessionState::Streaming, ..h };
    assert(e4.len() == 0);
    assert(handshake_run(h4, e4) == (h4, Seq::<Seq<u8>>::empty()));
    assert(e3[0] == HandshakeEvent::Reply(second));
    assert(handshake_run(h3, e3).0 == h4);
    assert(handshake_run(h3, e3).1 =~= Seq::<Seq<u8>>::empty());
    assert(e2[0] == HandshakeEvent::Reply(first));
    assert(start_session_envelope(h2) == start_session_envelope(h));
    assert(handshake_run(h2, e2).0 == h4);
    assert(handshake_run(h2, e2).1 =~= seq![start_session_envelope(h)]);
    assert(e1[0] == HandshakeEvent::Connected);
    assert(start_task_envelope(h1) == start_task_envelope(h));
    assert(handshake_run(h1, e1).0 == h4);
    assert(handshake_run(h1, e1).1 =~= seq![start_task_envelope(h), start_session_envelope(h)]);
    assert(e0[0] == HandshakeEvent::Start);
    assert(handshake_run(h, e0).0 == h4);
    assert(handshake_run(h, e0).1 =~= seq![start_task_envelope(h), start_session_envelope(h)]);
}

/// A streaming pump whose input delivers `frames` and closes transmits one
/// envelope for each frame, in order, then the closing frame, then the end
/// of the session, and nothing else.
pub proof fn lemma_outbound_transcript(p: OutboundView, frames: Seq<Vec<u8>>)
    requires
        p.state == SessionState::Streaming,
    ensures
        outbound_run(p, input_events(frames)) == ({
            let end = OutboundView { frame_index: p.frame_index + frames.len(), ..p };
            (
                OutboundView { state: SessionState::Finishing, ..end },
                audio_envelopes(p, frames) + seq![end.closing_envelope(), end.finish_envelope()],
            )
        }),
    decreases frames.len(),
{
    let events = input_events(frames);
    let end = OutboundView { frame_index: p.frame_index + frames.len(), ..p };
    let closing = seq![end.closing_envelope(), end.finish_envelope()];
    if frames.len() == 0 {
        assert(events[0] == OutboundEvent::InputClosed);
        assert(events.drop_first().len() == 0);
        let done = OutboundView { state: SessionState::Finishing, ..p };
        assert(outbound_run(done, events.drop_first()) == (done, Seq::<Seq<u8>>::empty()));
        assert(end == p);
        assert(outbound_run(p, events).1 =~= audio_envelopes(p, frames) + closing);
    } else {
        let q = OutboundView { frame_index: p.frame_index + 1, ..p };
        let rest = frames.drop_first();
        assert(events[0] == OutboundEvent::Frame(frames[0]));
        assert(events.drop_first() =~= input_events(rest));
        lemma_outbound_transcript(q, rest);
        let end_rest = OutboundView { frame_index: q.frame_index + rest.len(), ..q };
        assert(end_rest == end);
        assert forall|i: int| 0 <= i < rest.len() implies #[trigger] audio_envelopes(q, rest)[i]
            == audio_envelopes(p, frames)[i + 1] by {
            assert(q.frame_index + i as nat == p.frame_index + (i + 1) as nat);
            assert(rest[i] == frames[i + 1]);
        }
        assert(audio_envelopes(p, frames)[0] == p.audio_envelope(frames[0]@));
        assert(seq![p.audio_envelope(frames[0]@)] + (audio_envelopes(q, rest) + closing)
            =~= audio_envelopes(p, frames) + closing);
    }
}

/// For every number of frames, a session whose handshake is accepted
/// transmits exactly: the opening of the task, the opening of the session,
/// one envelope for each frame in order (the first marked `First`, the
/// others `Middle`), one closing frame marked `Last`, and the end of the
/// session. The time of each frame lies one frame duration after that of
/// the frame before it.
pub proof fn lemma_session_transcript(
    h: HandshakeView,
    first: AsrResponse,
    second: AsrResponse,
    start_time: nat,
    frames: Seq<Vec<u8>>,
)
    requires
        h.state == SessionState::Disconnected,
        first.response_type != ResponseType::Error,
        second.response_type != ResponseType::Error,
    ensures
        session_transcript(h, first, second, start_time, frames).len() == frames.len() + 4,
        session_transcript(h, first, second, start_time, frames)[0] == start_task_envelope(h),
        session_transcript(h, first, second, start_time, frames)[1] == start_session_envelope(h),
        forall|i: int|
            0 <= i < frames.len() ==> #[trigger] session_transcript(
                h,
                first,
                second,
                start_time,
                frames,
            )[i + 2] == task_request(
                h.request_id,
                frames[i]@,
                frame_position(i as nat),
                frame_time(start_time, i as nat),
            ).encoded(),
        session_transcript(h, first, second, start_time, frames)[frames.len() + 2 as int] == task_request(
            h.request_id,
            closing_payload(),
            FrameState::Last,
            frame_time(start_time, frames.len()),
        ).encoded(),
        session_transcript(h, first, second, start_time, frames)[frames.len() + 3 as int]
            == finish_session_request(h.request_id, h.token).encoded(),
        forall|i: nat| #[trigger]
            frame_time(start_time, i + 1) == frame_time(start_time, i) + FRAME_DURATION_MS,
{
    let p = first_pump(h, start_time);
    lemma_handshake_transcript(h, first, second);
    lemma_outbound_transcript(p, frames);
    let transcript = session_transcript(h, first, second, start_time, frames);
    let end = OutboundView { frame_index: p.frame_index + frames.len(), ..p };
    let opening = seq![start_task_envelope(h), start_session_envelope(h)];
    let closing = seq![end.closing_envelope(), end.finish_envelope()];
    assert(transcript == opening + (audio_envelopes(p, frames) + closing));
    assert forall|i: int| 0 <= i < frames.len() implies #[trigger] transcript[i + 2]
        == task_request(
        h.request_id,
        frames[i]@,
        frame_position(i as nat),
        frame_time(start_time, i as nat),
    ).encoded() by {
        assert(transcript[i + 2] == audio_envelopes(p, frames)[i]);
    }
    assert(transcript[frames.len() + 2 as int] == closing[0]);
    assert(transcript[frames.len() + 3 as int] == closing[1]);
    assert forall|i: nat| #[trigger]
        frame_time(start_time, i + 1) == frame_time(start_time, i) + FRAME_DURATION_MS by {
        assert((i + 1) * (FRAME_DURATION_MS as nat) == i * (FRAME_DURATION_MS as nat)
            + FRAME_DURATION_MS as nat) by (nonlinear_arith);
    }
}

/// A pump that has stopped hands nothing on, whatever comes in.
pub proof fn lemma_stopped_pump_is_silent(state: SessionState, events: Seq<InboundEvent>)
    requires
        state != SessionState::Streaming,
    ensures
        inbound_run(state, events) == (state, Seq::<AsrResponse>::empty()),
    decreases events.len(),
{
    if events.len() > 0 {
        lemma_stopped_pump_is_silent(state, events.drop_first());
        assert(inbound_run(state, events).1 =~= Seq::<AsrResponse>::empty());
    }
}

/// A run over `before` and then `after` is the run over `after` from where
/// the run over `before` ends.
pub proof fn lemma_inbound_run_split(
    state: SessionState,
    before: Seq<InboundEvent>,
    after: Seq<InboundEvent>,
)
    ensures
        inbound_run(state, before + after) == ({
            let (middle, handed) = inbound_run(state, before);
            let (end, more) = inbound_run(middle, after);
            (end, handed + more)
        }),
    decreases before.len(),
{
    if before.len() == 0 {
        assert(before + after =~= after);
        assert(Seq::<AsrResponse>::empty() + inbound_run(state, after).1 =~= inbound_run(
            state,
            after,
        ).1);
    } else {
        let events = before + after;
        assert(events[0] == before[0]);
        assert(events.drop_first() =~= before.drop_first() + after);
        let next = inbound_next(state, before[0]).0;
        lemma_inbound_run_split(next, before.drop_first(), after);
        let (middle, handed) = inbound_run(state, before);
        let (end, more) = inbound_run(middle, after);
        assert(inbound_run(state, events).1 =~= handed + more);
    }
}

/// No heartbeat ever reaches the consumer: whatever comes in, in whatever
/// state, none of the events handed on is a heartbeat.
pub proof fn lemma_heartbeats_never_forwarded(state: SessionState, events: Seq<InboundEvent>)
    ensures
        forall|i: int|
            0 <= i < inbound_run(state, events).1.len() ==> (#[trigger] inbound_run(
                state,
                events,
            ).1[i]).response_type != ResponseType::Heartbeat,
    decreases events.len(),
{
    if events.len() > 0 {
        let (next, action) = inbound_next(state, events[0]);
        lemma_heartbeats_never_forwarded(next, events.drop_first());
        let handed = match action {
            InboundAction::Forward(response) => seq![response],
            InboundAction::ForwardAndStop(response) => seq![response],
            _ => Seq::empty(),
        };
        let more = inbound_run(next, events.drop_first()).1;
        assert(inbound_run(state, events).1 == handed + more);
        assert forall|i: int| 0 <= i < (handed + more).len() implies (#[trigger] (handed
            + more)[i]).response_type != ResponseType::Heartbeat by {
            if i < handed.len() {
                assert((handed + more)[i] == handed[i]);
            } else {
                assert((handed + more)[i] == more[i - handed.len()]);
            }
        }
    }
}

/// An error that comes in while the pump still reads is handed on exactly
/// once and ends the pump: nothing that comes in after it is handed on.
pub proof fn lemma_error_ends_forwarding(
    before: Seq<InboundEvent>,
    error: AsrResponse,
    after: Seq<InboundEvent>,
)
    requires
        inbound_run(SessionState::Streaming, before).0 == SessionState::Streaming,
        error.response_type == ResponseType::Error,
    ensures
        inbound_run(
            SessionState::Streaming,
            before + seq![InboundEvent::Response(error)] + after,
        ) == (
            SessionState::Error,
            inbound_run(SessionState::Streaming, before).1.push(error),
        ),
{
    let one = seq![InboundEvent::Response(error)];
    let handed = inbound_run(SessionState::Streaming, before).1;
    assert(before + one + after =~= before + (one + after));
    lemma_inbound_run_split(SessionState::Streaming, before, one + after);
    lemma_inbound_run_split(SessionState::Streaming, one, after);
    lemma_stopped_pump_is_silent(SessionState::Error, after);
    assert(one.drop_first().len() == 0);
    assert(inbound_run(SessionState::Error, one.drop_first()) == (
        SessionState::Error,
        Seq::<AsrResponse>::empty(),
    ));
    assert(inbound_run(SessionState::Streaming, one).0 == SessionState::Error);
    assert(inbound_run(SessionState::Streaming, one).1 =~= seq![error]);
    assert(handed + (seq![error] + Seq::<AsrResponse>::empty()) =~= handed.push(error));
}

} // verus!
