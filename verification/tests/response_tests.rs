use voice_input::json::JsonValue;
use voice_input::protocol::{TAG_MESSAGE_TYPE, TAG_RESULT_JSON, TAG_STATUS_MESSAGE};
use voice_input::response::{parse_response, ResponseType};

fn envelope(message_type: &str, result_json: &str, status_message: &str) -> Vec<u8> {
    let mut buf: Vec<u8> = Vec::new();
    if !message_type.is_empty() {
        prost::encoding::string::encode(TAG_MESSAGE_TYPE, &message_type.to_string(), &mut buf);
    }
    if !result_json.is_empty() {
        prost::encoding::string::encode(TAG_RESULT_JSON, &result_json.to_string(), &mut buf);
    }
    if !status_message.is_empty() {
        prost::encoding::string::encode(TAG_STATUS_MESSAGE, &status_message.to_string(), &mut buf);
    }
    buf
}

#[test]
fn final_result_with_text() {
    let doc = r#"{"results":[{"text":"hello","is_interim":false,"is_vad_finished":true}]}"#;
    let response = parse_response(&envelope("", doc, ""));
    assert_eq!(response.response_type, ResponseType::FinalResult);
    assert_eq!(response.text, "hello");
    assert!(response.is_final);
    assert!(response.vad_finished);
    assert!(!response.vad_start);
    assert_eq!(response.packet_number, -1);
    assert_eq!(response.error_msg, "");
    assert!(response.raw_json.is_some());
}

#[test]
fn interim_result_last_text_wins() {
    let doc = r#"{"results":[{"text":"he"},{"text":"hello"}]}"#;
    let response = parse_response(&envelope("", doc, ""));
    assert_eq!(response.response_type, ResponseType::InterimResult);
    assert_eq!(response.text, "hello");
    assert!(!response.is_final);
    assert!(!response.vad_finished);
}

#[test]
fn heartbeat_with_packet_number() {
    let response = parse_response(&envelope("", r#"{"extra":{"packet_number":42}}"#, ""));
    assert_eq!(response.response_type, ResponseType::Heartbeat);
    assert_eq!(response.packet_number, 42);
    assert!(response.raw_json.is_some());
}

#[test]
fn heartbeat_without_packet_number() {
    let response = parse_response(&envelope("", r#"{"other":1}"#, ""));
    assert_eq!(response.response_type, ResponseType::Heartbeat);
    assert_eq!(response.packet_number, -1);
    let response = parse_response(&envelope("", r#"{"extra":{"packet_number":"x"}}"#, ""));
    assert_eq!(response.response_type, ResponseType::Heartbeat);
    assert_eq!(response.packet_number, -1);
}

#[test]
fn heartbeat_packet_number_is_cut_to_32_bits() {
    let response = parse_response(&envelope("", r#"{"extra":{"packet_number":4294967298}}"#, ""));
    assert_eq!(response.response_type, ResponseType::Heartbeat);
    assert_eq!(response.packet_number, 2);
}

#[test]
fn lifecycle_kinds_need_no_document() {
    let started = parse_response(&envelope("TaskStarted", "not json", ""));
    assert_eq!(started.response_type, ResponseType::TaskStarted);
    assert!(started.raw_json.is_none());
    let session = parse_response(&envelope("SessionStarted", "", ""));
    assert_eq!(session.response_type, ResponseType::SessionStarted);
    let finished = parse_response(&envelope("SessionFinished", "", ""));
    assert_eq!(finished.response_type, ResponseType::SessionFinished);
}

#[test]
fn failures_carry_the_status_message() {
    let task = parse_response(&envelope("TaskFailed", "", "bad token"));
    assert_eq!(task.response_type, ResponseType::Error);
    assert_eq!(task.error_msg, "bad token");
    let session = parse_response(&envelope("SessionFailed", "{}", "quota"));
    assert_eq!(session.response_type, ResponseType::Error);
    assert_eq!(session.error_msg, "quota");
}

#[test]
fn empty_or_invalid_document_is_unknown() {
    let empty = parse_response(&envelope("Other", "", ""));
    assert_eq!(empty.response_type, ResponseType::Unknown);
    let invalid = parse_response(&envelope("", "{not json", ""));
    assert_eq!(invalid.response_type, ResponseType::Unknown);
    assert!(invalid.raw_json.is_none());
    let nothing = parse_response(&[]);
    assert_eq!(nothing.response_type, ResponseType::Unknown);
}

#[test]
fn malformed_bytes_are_an_error_event() {
    let response = parse_response(&[0x0a, 0x05, b'a']);
    assert_eq!(response.response_type, ResponseType::Error);
    assert!(response.error_msg.starts_with("Decode error: "));
    assert!(response.error_msg.len() > "Decode error: ".len());
    let not_utf8 = parse_response(&[0x0a, 0x02, 0xff, 0xfe]);
    assert_eq!(not_utf8.response_type, ResponseType::Error);
    let wrong_wire = parse_response(&[0x08, 0x01]);
    assert_eq!(wrong_wire.response_type, ResponseType::Error);
    let tag_zero = parse_response(&[0x02, 0x00]);
    assert_eq!(tag_zero.response_type, ResponseType::Error);
}

#[test]
fn unknown_fields_are_stepped_over() {
    let mut buf: Vec<u8> = Vec::new();
    prost::encoding::uint64::encode(9, &300u64, &mut buf);
    prost::encoding::string::encode(TAG_MESSAGE_TYPE, &"TaskStarted".to_string(), &mut buf);
    prost::encoding::string::encode(12, &"ignored".to_string(), &mut buf);
    let response = parse_response(&buf);
    assert_eq!(response.response_type, ResponseType::TaskStarted);
}

#[test]
fn repeated_field_keeps_the_last_value() {
    let mut buf: Vec<u8> = Vec::new();
    prost::encoding::string::encode(TAG_MESSAGE_TYPE, &"TaskFailed".to_string(), &mut buf);
    prost::encoding::string::encode(TAG_STATUS_MESSAGE, &"first".to_string(), &mut buf);
    prost::encoding::string::encode(TAG_STATUS_MESSAGE, &"second".to_string(), &mut buf);
    let response = parse_response(&buf);
    assert_eq!(response.response_type, ResponseType::Error);
    assert_eq!(response.error_msg, "second");
}

#[test]
fn vad_start_takes_precedence_over_results() {
    let doc = r#"{"results":[{"text":"x","is_interim":false,"is_vad_finished":true}],"extra":{"vad_start":true}}"#;
    let response = parse_response(&envelope("", doc, ""));
    assert_eq!(response.response_type, ResponseType::VadStart);
    assert!(response.vad_start);
    assert_eq!(response.text, "");
    assert!(!response.is_final);
}

#[test]
fn nonstream_result_alone_is_final() {
    let doc = r#"{"results":[{"text":"done","extra":{"nonstream_result":true}}]}"#;
    let response = parse_response(&envelope("", doc, ""));
    assert_eq!(response.response_type, ResponseType::FinalResult);
    assert_eq!(response.text, "done");
    assert!(response.is_final);
    assert!(!response.vad_finished);
}

#[test]
fn settled_without_vad_finished_is_interim() {
    let doc = r#"{"results":[{"text":"a","is_interim":false}]}"#;
    let response = parse_response(&envelope("", doc, ""));
    assert_eq!(response.response_type, ResponseType::InterimResult);
    let doc = r#"{"results":[{"text":"a","is_vad_finished":true}]}"#;
    let response = parse_response(&envelope("", doc, ""));
    assert_eq!(response.response_type, ResponseType::InterimResult);
    assert!(!response.vad_finished);
}

#[test]
fn finality_markers_may_sit_in_different_entries() {
    let doc = r#"{"results":[{"text":"a","is_interim":false},{"is_vad_finished":true}]}"#;
    let response = parse_response(&envelope("", doc, ""));
    assert_eq!(response.response_type, ResponseType::FinalResult);
    assert_eq!(response.text, "a");
}

#[test]
fn results_that_are_no_array_give_an_empty_interim() {
    let response = parse_response(&envelope("", r#"{"results":7}"#, ""));
    assert_eq!(response.response_type, ResponseType::InterimResult);
    assert_eq!(response.text, "");
}

#[test]
fn raw_document_keeps_what_was_read() {
    let response = parse_response(&envelope("", r#"{"results":[],"n":1.5,"k":-3}"#, ""));
    let doc = response.raw_json.expect("document");
    match doc.get("n") {
        Some(JsonValue::Number(n)) => {
            assert_eq!(n.integer, None);
            assert_eq!(n.text, "1.5");
        }
        other => panic!("unexpected {:?}", other),
    }
    assert_eq!(doc.get("k").and_then(|v| v.as_i64()), Some(-3));
    assert!(doc.get("missing").is_none());
}
