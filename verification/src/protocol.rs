//! Envelopes of the recognition protocol: how requests are built and how
//! responses are read and classified.

use vstd::prelude::*;
use vstd::utf8::*;
pub use crate::response::{parse_response, AsrResponse, ResponseType};
use crate::json::{json_string_literal, string_literal};
use crate::text::{decimal, push_decimal, push_truth, truth_text};
use crate::wire::{
    length_delimited_field, put_bytes_field, put_int32_field, put_string_field, varint_field,
    MAX_TAG, MIN_TAG,
};

verus! {

/// Field numbers of the request envelope.
pub const TAG_TOKEN: u32 = 1;

pub const TAG_SERVICE_NAME: u32 = 2;

pub const TAG_METHOD_NAME: u32 = 3;

pub const TAG_PAYLOAD: u32 = 4;

pub const TAG_AUDIO_DATA: u32 = 5;

pub const TAG_REQUEST_ID: u32 = 6;

pub const TAG_FRAME_STATE: u32 = 7;

/// Field numbers of the response envelope.
pub const TAG_MESSAGE_TYPE: u32 = 1;

pub const TAG_RESULT_JSON: u32 = 2;

pub const TAG_STATUS_MESSAGE: u32 = 3;

/// Length of the payload of the closing audio frame.
pub const CLOSING_FRAME_LEN: usize = 100;

/// Position of an audio frame in its stream.
#[derive(Clone, Copy, Debug, PartialEq, Eq, Structural)]
pub enum FrameState {
    Unspecified,
    First,
    Middle,
    Last,
}

impl FrameState {
    /// Number that stands for the position on the wire.
    pub open spec fn number(self) -> nat {
        match self {
            FrameState::Unspecified => 0,
            FrameState::First => 1,
            FrameState::Middle => 2,
            FrameState::Last => 3,
        }
    }

    /// Number that stands for the position on the wire.
    pub fn to_number(self) -> (n: i32)
        ensures
            n == self.number(),
    {
        match self {
            FrameState::Unspecified => 0,
            FrameState::First => 1,
            FrameState::Middle => 2,
            FrameState::Last => 3,
        }
    }
}

/// What a request envelope holds, as mathematical values.
pub struct RequestView {
    pub token: Seq<char>,
    pub service_name: Seq<char>,
    pub method_name: Seq<char>,
    pub payload: Seq<char>,
    pub audio_data: Seq<u8>,
    pub request_id: Seq<char>,
    pub frame_state: FrameState,
}

/// Bytes of a string field; a field that holds nothing is left out.
pub open spec fn string_field(tag: u32, text: Seq<char>) -> Seq<u8> {
    if text.len() == 0 {
        Seq::empty()
    } else {
        length_delimited_field(tag, encode_utf8(text))
    }
}

/// Bytes of a bytes field; a field that holds nothing is left out.
pub open spec fn bytes_field(tag: u32, content: Seq<u8>) -> Seq<u8> {
    if content.len() == 0 {
        Seq::empty()
    } else {
        length_delimited_field(tag, content)
    }
}

/// Bytes of the frame position; `Unspecified` is left out.
pub open spec fn frame_state_field(tag: u32, state: FrameState) -> Seq<u8> {
    if state == FrameState::Unspecified {
        Seq::empty()
    } else {
        varint_field(tag, state.number())
    }
}

impl RequestView {
    /// The envelope on the wire: its fields in the order of their numbers.
    pub open spec fn encoded(self) -> Seq<u8> {
        string_field(TAG_TOKEN, self.token) + string_field(TAG_SERVICE_NAME, self.service_name)
            + string_field(TAG_METHOD_NAME, self.method_name) + string_field(
            TAG_PAYLOAD,
            self.payload,
        ) + bytes_field(TAG_AUDIO_DATA, self.audio_data) + string_field(
            TAG_REQUEST_ID,
            self.request_id,
        ) + frame_state_field(TAG_FRAME_STATE, self.frame_state)
    }
}

/// A request envelope.
#[derive(Debug)]
pub struct AsrRequest {
    pub token: String,
    pub service_name: String,
    pub method_name: String,
    pub payload: String,
    pub audio_data: Vec<u8>,
    pub request_id: String,
    pub frame_state: FrameState,
}

impl View for AsrRequest {
    type V = RequestView;

    open spec fn view(&self) -> RequestView {
        RequestView {
            token: self.token@,
            service_name: self.service_name@,
            method_name: self.method_name@,
            payload: self.payload@,
            audio_data: self.audio_data@,
            request_id: self.request_id@,
            frame_state: self.frame_state,
        }
    }
}

/// Appends a string field to `buf` unless the string is empty.
fn put_text(tag: u32, text: &String, buf: &mut Vec<u8>)
    requires
        MIN_TAG <= tag <= MAX_TAG,
    ensures
        final(buf)@ == old(buf)@ + string_field(tag, text@),
{
    if text.as_str().is_empty() {
        assert(old(buf)@ + Seq::<u8>::empty() =~= old(buf)@);
    } else {
        put_string_field(tag, text, buf);
    }
}

impl AsrRequest {
    /// Writes the envelope as it goes over the wire.
    pub fn encode_to_vec(&self) -> (bytes: Vec<u8>)
        ensures
            bytes@ == self@.encoded(),
    {
        let mut buf: Vec<u8> = Vec::new();
        put_text(TAG_TOKEN, &self.token, &mut buf);
        put_text(TAG_SERVICE_NAME, &self.service_name, &mut buf);
        put_text(TAG_METHOD_NAME, &self.method_name, &mut buf);
        put_text(TAG_PAYLOAD, &self.payload, &mut buf);
        if !self.audio_data.is_empty() {
            put_bytes_field(TAG_AUDIO_DATA, &self.audio_data, &mut buf);
        }
        put_text(TAG_REQUEST_ID, &self.request_id, &mut buf);
        match self.frame_state {
            FrameState::Unspecified => {},
            _ => {
                put_int32_field(TAG_FRAME_STATE, self.frame_state.to_number(), &mut buf);
            },
        }
        assert(buf@ =~= self@.encoded());
        buf
    }
}

/// Audio format of a session.
#[derive(Debug)]
pub struct AudioInfo {
    pub channel: u16,
    pub format: String,
    pub sample_rate: u32,
}

/// Identity block of a session.
#[derive(Debug)]
pub struct SessionExtra {
    pub app_name: String,
    pub cell_compress_rate: u32,
    pub did: String,
    pub enable_asr_threepass: bool,
    pub enable_asr_twopass: bool,
    pub input_mode: String,
}

/// Configuration that opens a session.
#[derive(Debug)]
pub struct SessionConfig {
    pub audio_info: AudioInfo,
    pub enable_punctuation: bool,
    pub enable_speech_rejection: bool,
    pub extra: SessionExtra,
}

/// What a session configuration holds, as mathematical values.
pub struct SessionConfigView {
    pub channel: u16,
    pub format: Seq<char>,
    pub sample_rate: u32,
    pub enable_punctuation: bool,
    pub enable_speech_rejection: bool,
    pub app_name: Seq<char>,
    pub cell_compress_rate: u32,
    pub did: Seq<char>,
    pub enable_asr_threepass: bool,
    pub enable_asr_twopass: bool,
    pub input_mode: Seq<char>,
}

impl View for SessionConfig {
    type V = SessionConfigView;

    open spec fn view(&self) -> SessionConfigView {
        SessionConfigView {
            channel: self.audio_info.channel,
            format: self.audio_info.format@,
            sample_rate: self.audio_info.sample_rate,
            enable_punctuation: self.enable_punctuation,
            enable_speech_rejection: self.enable_speech_rejection,
            app_name: self.extra.app_name@,
            cell_compress_rate: self.extra.cell_compress_rate,
            did: self.extra.did@,
            enable_asr_threepass: self.extra.enable_asr_threepass,
            enable_asr_twopass: self.extra.enable_asr_twopass,
            input_mode: self.extra.input_mode@,
        }
    }
}

/// The configuration of a session for the device `did`: one channel of
/// `speech_opus` at 16 kHz, punctuation on, speech rejection off, both
/// further recognition passes on.
pub open spec fn standard_session(did: Seq<char>) -> SessionConfigView {
    SessionConfigView {
        channel: 1,
        format: "speech_opus"@,
        sample_rate: 16000,
        enable_punctuation: true,
        enable_speech_rejection: false,
        app_name: "com.android.chrome"@,
        cell_compress_rate: 8,
        did,
        enable_asr_threepass: true,
        enable_asr_twopass: true,
        input_mode: "tool"@,
    }
}

impl SessionConfigView {
    /// The configuration as a JSON document: the members in the order of
    /// the fields, without white space.
    pub open spec fn document(self) -> Seq<char> {
        "{\"audio_info\":{\"channel\":"@ + decimal(self.channel as nat) + ",\"format\":"@
            + json_string_literal(self.format) + ",\"sample_rate\":"@ + decimal(
            self.sample_rate as nat,
        ) + "},\"enable_punctuation\":"@ + truth_text(self.enable_punctuation)
            + ",\"enable_speech_rejection\":"@ + truth_text(self.enable_speech_rejection)
            + ",\"extra\":{\"app_name\":"@ + json_string_literal(self.app_name)
            + ",\"cell_compress_rate\":"@ + decimal(self.cell_compress_rate as nat)
            + ",\"did\":"@ + json_string_literal(self.did) + ",\"enable_asr_threepass\":"@
            + truth_text(self.enable_asr_threepass) + ",\"enable_asr_twopass\":"@ + truth_text(
            self.enable_asr_twopass,
        ) + ",\"input_mode\":"@ + json_string_literal(self.input_mode) + "}}"@
    }
}

impl SessionConfig {
    /// The standard configuration of a session for the device `device_id`.
    pub fn new(device_id: &str) -> (config: SessionConfig)
        ensures
            config@ == standard_session(device_id@),
    {
        SessionConfig {
            audio_info: AudioInfo {
                channel: 1,
                format: "speech_opus".to_owned(),
                sample_rate: 16000,
            },
            enable_punctuation: true,
            enable_speech_rejection: false,
            extra: SessionExtra {
                app_name: "com.android.chrome".to_owned(),
                cell_compress_rate: 8,
                did: device_id.to_owned(),
                enable_asr_threepass: true,
                enable_asr_twopass: true,
                input_mode: "tool".to_owned(),
            },
        }
    }

    /// Writes the configuration as a JSON document.
    pub fn to_json(&self) -> (text: String)
        ensures
            text@ == self@.document(),
    {
        let mut out = String::new();
        out.append("{\"audio_info\":{\"channel\":");
        push_decimal(&mut out, self.audio_info.channel as u64);
        out.append(",\"format\":");
        out.append(string_literal(self.audio_info.format.as_str()).as_str());
        out.append(",\"sample_rate\":");
        push_decimal(&mut out, self.audio_info.sample_rate as u64);
        out.append("},\"enable_punctuation\":");
        push_truth(&mut out, self.enable_punctuation);
        out.append(",\"enable_speech_rejection\":");
        push_truth(&mut out, self.enable_speech_rejection);
        out.append(",\"extra\":{\"app_name\":");
        out.append(string_literal(self.extra.app_name.as_str()).as_str());
        out.append(",\"cell_compress_rate\":");
        push_decimal(&mut out, self.extra.cell_compress_rate as u64);
        out.append(",\"did\":");
        out.append(string_literal(self.extra.did.as_str()).as_str());
        out.append(",\"enable_asr_threepass\":");
        push_truth(&mut out, self.extra.enable_asr_threepass);
        out.append(",\"enable_asr_twopass\":");
        push_truth(&mut out, self.extra.enable_asr_twopass);
        out.append(",\"input_mode\":");
        out.append(string_literal(self.extra.input_mode.as_str()).as_str());
        out.append("}}");
        assert(out@ =~= self@.document());
        out
    }
}

/// The metadata that goes with an audio frame, as a JSON document.
pub open spec fn frame_metadata(timestamp_ms: nat) -> Seq<char> {
    "{\"extra\":{},\"timestamp_ms\":"@ + decimal(timestamp_ms) + "}"@
}

/// The envelope that opens the task.
pub open spec fn start_task_request(request_id: Seq<char>, token: Seq<char>) -> RequestView {
    RequestView {
        token,
        service_name: "ASR"@,
        method_name: "StartTask"@,
        payload: Seq::empty(),
        audio_data: Seq::empty(),
        request_id,
        frame_state: FrameState::Unspecified,
    }
}

/// The envelope that opens the session with the configuration `payload`.
pub open spec fn start_session_request(
    request_id: Seq<char>,
    token: Seq<char>,
    payload: Seq<char>,
) -> RequestView {
    RequestView {
        token,
        service_name: "ASR"@,
        method_name: "StartSession"@,
        payload,
        audio_data: Seq::empty(),
        request_id,
        frame_state: FrameState::Unspecified,
    }
}

/// The envelope that ends the session.
pub open spec fn finish_session_request(request_id: Seq<char>, token: Seq<char>) -> RequestView {
    RequestView {
        token,
        service_name: "ASR"@,
        method_name: "FinishSession"@,
        payload: Seq::empty(),
        audio_data: Seq::empty(),
        request_id,
        frame_state: FrameState::Unspecified,
    }
}

/// The envelope that carries one audio frame. It bears no token.
pub open spec fn task_request(
    request_id: Seq<char>,
    audio_data: Seq<u8>,
    frame_state: FrameState,
    timestamp_ms: nat,
) -> RequestView {
    RequestView {
        token: Seq::empty(),
        service_name: "ASR"@,
        method_name: "TaskRequest"@,
        payload: frame_metadata(timestamp_ms),
        audio_data,
        request_id,
        frame_state,
    }
}

/// Builds the envelope that opens the task.
pub fn build_start_task(request_id: &str, token: &str) -> (bytes: Vec<u8>)
    ensures
        bytes@ == start_task_request(request_id@, token@).encoded(),
{
    let request = AsrRequest {
        token: token.to_owned(),
        service_name: "ASR".to_owned(),
        method_name: "StartTask".to_owned(),
        payload: String::new(),
        audio_data: Vec::new(),
        request_id: request_id.to_owned(),
        frame_state: FrameState::Unspecified,
    };
    assert(request@ =~= start_task_request(request_id@, token@));
    request.encode_to_vec()
}

/// Builds the envelope that opens the session; its payload is `config` as
/// a JSON document.
pub fn build_start_session(request_id: &str, token: &str, config: &SessionConfig) -> (bytes: Vec<
    u8,
>)
    ensures
        bytes@ == start_session_request(request_id@, token@, config@.document()).encoded(),
{
    let request = AsrRequest {
        token: token.to_owned(),
        service_name: "ASR".to_owned(),
        method_name: "StartSession".to_owned(),
        payload: config.to_json(),
        audio_data: Vec::new(),
        request_id: request_id.to_owned(),
        frame_state: FrameState::Unspecified,
    };
    assert(request@ =~= start_session_request(request_id@, token@, config@.document()));
    request.encode_to_vec()
}

/// Builds the envelope that ends the session.
pub fn build_finish_session(request_id: &str, token: &str) -> (bytes: Vec<u8>)
    ensures
        bytes@ == finish_session_request(request_id@, token@).encoded(),
{
    let request = AsrRequest {
        token: token.to_owned(),
        service_name: "ASR".to_owned(),
        method_name: "FinishSession".to_owned(),
        payload: String::new(),
        audio_data: Vec::new(),
        request_id: request_id.to_owned(),
        frame_state: FrameState::Unspecified,
    };
    assert(request@ =~= finish_session_request(request_id@, token@));
    request.encode_to_vec()
}

/// Builds the envelope that carries one audio frame with its position and
/// its time in milliseconds.
pub fn build_task_request(
    request_id: &str,
    audio_data: Vec<u8>,
    frame_state: FrameState,
    timestamp_ms: u64,
) -> (bytes: Vec<u8>)
    ensures
        bytes@ == task_request(
            request_id@,
            audio_data@,
            frame_state,
            timestamp_ms as nat,
        ).encoded(),
{
    let mut metadata = String::new();
    metadata.append("{\"extra\":{},\"timestamp_ms\":");
    push_decimal(&mut metadata, timestamp_ms);
    metadata.append("}");
    assert(metadata@ =~= frame_metadata(timestamp_ms as nat));
    let request = AsrRequest {
        token: String::new(),
        service_name: "ASR".to_owned(),
        method_name: "TaskRequest".to_owned(),
        payload: metadata,
        audio_data,
        request_id: request_id.to_owned(),
        frame_state,
    };
    assert(request@ =~= task_request(request_id@, audio_data@, frame_state, timestamp_ms as nat));
    request.encode_to_vec()
}

} // verus!
