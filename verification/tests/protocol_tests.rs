use voice_input::protocol::{
    build_finish_session, build_start_session, build_start_task, build_task_request, AsrRequest,
    FrameState, SessionConfig,
};
use voice_input::text::decimal_string;

/// One field of an envelope as it stands on the wire.
#[derive(Debug, PartialEq)]
enum Field {
    Bytes(u32, Vec<u8>),
    Number(u32, u64),
}

fn fields(bytes: &[u8]) -> Vec<Field> {
    let mut buf = bytes;
    let mut out = Vec::new();
    while !buf.is_empty() {
        let (tag, wire) = prost::encoding::decode_key(&mut buf).expect("key");
        match wire {
            prost::encoding::WireType::LengthDelimited => {
                let len = prost::encoding::decode_varint(&mut buf).expect("length") as usize;
                out.push(Field::Bytes(tag, buf[..len].to_vec()));
                buf = &buf[len..];
            }
            prost::encoding::WireType::Varint => {
                let value = prost::encoding::decode_varint(&mut buf).expect("value");
                out.push(Field::Number(tag, value));
            }
            other => panic!("unexpected wire type {:?}", other),
        }
    }
    out
}

fn text(tag: u32, value: &str) -> Field {
    Field::Bytes(tag, value.as_bytes().to_vec())
}

const STANDARD_DOCUMENT: &str = "{\"audio_info\":{\"channel\":1,\"format\":\"speech_opus\",\"sample_rate\":16000},\"enable_punctuation\":true,\"enable_speech_rejection\":false,\"extra\":{\"app_name\":\"com.android.chrome\",\"cell_compress_rate\":8,\"did\":\"12345\",\"enable_asr_threepass\":true,\"enable_asr_twopass\":true,\"input_mode\":\"tool\"}}";

#[test]
fn start_task_bytes_are_exact() {
    let bytes = build_start_task("r1", "tok");
    let expected: Vec<u8> = vec![
        0x0a, 0x03, b't', b'o', b'k', 0x12, 0x03, b'A', b'S', b'R', 0x1a, 0x09, b'S', b't', b'a',
        b'r', b't', b'T', b'a', b's', b'k', 0x32, 0x02, b'r', b'1',
    ];
    assert_eq!(bytes, expected);
}

#[test]
fn finish_session_fields() {
    let bytes = build_finish_session("req-7", "secret");
    assert_eq!(
        fields(&bytes),
        vec![text(1, "secret"), text(2, "ASR"), text(3, "FinishSession"), text(6, "req-7")]
    );
}

#[test]
fn empty_strings_are_left_out() {
    let bytes = build_start_task("", "");
    assert_eq!(fields(&bytes), vec![text(2, "ASR"), text(3, "StartTask")]);
}

#[test]
fn session_config_document_is_exact() {
    let config = SessionConfig::new("12345");
    assert_eq!(config.audio_info.channel, 1);
    assert_eq!(config.audio_info.format, "speech_opus");
    assert_eq!(config.audio_info.sample_rate, 16000);
    assert!(config.enable_punctuation);
    assert!(!config.enable_speech_rejection);
    assert_eq!(config.extra.app_name, "com.android.chrome");
    assert_eq!(config.extra.cell_compress_rate, 8);
    assert_eq!(config.extra.did, "12345");
    assert!(config.extra.enable_asr_threepass);
    assert!(config.extra.enable_asr_twopass);
    assert_eq!(config.extra.input_mode, "tool");
    assert_eq!(config.to_json(), STANDARD_DOCUMENT);
}

#[test]
fn session_config_document_reads_back() {
    let config = SessionConfig::new("a\"b\\c\n");
    let value: serde_json::Value = serde_json::from_str(&config.to_json()).expect("json");
    assert_eq!(value["extra"]["did"].as_str(), Some("a\"b\\c\n"));
    assert_eq!(value["audio_info"]["channel"].as_u64(), Some(1));
    assert_eq!(value["audio_info"]["sample_rate"].as_u64(), Some(16000));
    assert_eq!(value["enable_punctuation"].as_bool(), Some(true));
    assert_eq!(value["enable_speech_rejection"].as_bool(), Some(false));
    assert_eq!(value["extra"]["cell_compress_rate"].as_u64(), Some(8));
}

#[test]
fn session_config_escapes_strings() {
    let config = SessionConfig::new("a\"b");
    assert!(config.to_json().contains("\"did\":\"a\\\"b\""));
}

#[test]
fn start_session_carries_the_document() {
    let config = SessionConfig::new("12345");
    let bytes = build_start_session("rid", "tok", &config);
    assert_eq!(
        fields(&bytes),
        vec![
            text(1, "tok"),
            text(2, "ASR"),
            text(3, "StartSession"),
            text(4, STANDARD_DOCUMENT),
            text(6, "rid"),
        ]
    );
    // The document is longer than 127 bytes, so its length takes two bytes.
    let at = bytes.iter().position(|b| *b == 0x22).expect("payload key");
    assert_eq!(&bytes[at..at + 3], &[0x22, 0x9a, 0x02]);
}

#[test]
fn task_request_fields() {
    let bytes = build_task_request("rid", vec![1, 2, 3], FrameState::First, 1700000000000);
    assert_eq!(
        fields(&bytes),
        vec![
            text(2, "ASR"),
            text(3, "TaskRequest"),
            text(4, "{\"extra\":{},\"timestamp_ms\":1700000000000}"),
            Field::Bytes(5, vec![1, 2, 3]),
            text(6, "rid"),
            Field::Number(7, 1),
        ]
    );
}

#[test]
fn task_request_positions() {
    let last = |state: FrameState| match fields(&build_task_request("r", vec![9], state, 0)).pop() {
        Some(Field::Number(7, n)) => Some(n),
        _ => None,
    };
    assert_eq!(last(FrameState::First), Some(1));
    assert_eq!(last(FrameState::Middle), Some(2));
    assert_eq!(last(FrameState::Last), Some(3));
    assert_eq!(last(FrameState::Unspecified), None);
}

#[test]
fn task_request_without_audio_leaves_the_field_out() {
    let bytes = build_task_request("r", Vec::new(), FrameState::Middle, 5);
    assert_eq!(
        fields(&bytes),
        vec![
            text(2, "ASR"),
            text(3, "TaskRequest"),
            text(4, "{\"extra\":{},\"timestamp_ms\":5}"),
            text(6, "r"),
            Field::Number(7, 2),
        ]
    );
}

#[test]
fn task_request_metadata_matches_serde_json() {
    let bytes = build_task_request("r", vec![0], FrameState::Middle, u64::MAX);
    let payload = match &fields(&bytes)[2] {
        Field::Bytes(4, payload) => String::from_utf8(payload.clone()).expect("utf-8"),
        other => panic!("unexpected {:?}", other),
    };
    let mut map = serde_json::Map::new();
    map.insert("extra".to_string(), serde_json::Value::Object(serde_json::Map::new()));
    map.insert("timestamp_ms".to_string(), serde_json::Value::from(u64::MAX));
    assert_eq!(payload, serde_json::Value::Object(map).to_string());
}

#[test]
fn request_with_non_ascii_text() {
    let request = AsrRequest {
        token: "é".to_string(),
        service_name: String::new(),
        method_name: String::new(),
        payload: "語".to_string(),
        audio_data: Vec::new(),
        request_id: String::new(),
        frame_state: FrameState::Unspecified,
    };
    assert_eq!(
        request.encode_to_vec(),
        vec![0x0a, 0x02, 0xc3, 0xa9, 0x22, 0x03, 0xe8, 0xaa, 0x9e]
    );
}

#[test]
fn large_audio_length_is_a_varint() {
    let bytes = build_task_request("", vec![7u8; 300], FrameState::Unspecified, 0);
    let at = bytes.iter().position(|b| *b == 0x2a).expect("audio key");
    assert_eq!(&bytes[at..at + 3], &[0x2a, 0xac, 0x02]);
    assert_eq!(bytes.len(), at + 3 + 300);
}

#[test]
fn decimal_strings() {
    assert_eq!(decimal_string(0), "0");
    assert_eq!(decimal_string(7), "7");
    assert_eq!(decimal_string(10), "10");
    assert_eq!(decimal_string(401734), "401734");
    assert_eq!(decimal_string(u64::MAX), "18446744073709551615");
}

#[test]
fn frame_state_numbers() {
    assert_eq!(FrameState::Unspecified.to_number(), 0);
    assert_eq!(FrameState::First.to_number(), 1);
    assert_eq!(FrameState::Middle.to_number(), 2);
    assert_eq!(FrameState::Last.to_number(), 3);
}
