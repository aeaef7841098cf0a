//! Responses of the recognition service: reading the envelope and turning
//! it into one typed event.

use vstd::prelude::*;
use vstd::slice::slice_subrange;
use crate::json::{json_document, read_document, same_text, JsonValue};
use vstd::utf8::encode_utf8;
use crate::protocol::{string_field, TAG_MESSAGE_TYPE, TAG_RESULT_JSON, TAG_STATUS_MESSAGE};
use crate::wire::{
    decode_error_text, field_key, lemma_string_field_reads_back, length_delimited_field,
    parsed_key, parsed_string, read_key, read_string, skip_value, skipped_len, varint,
    WIRE_LENGTH_DELIMITED,
};

verus! {

/// Kinds of events that the service reports.
#[derive(Clone, Copy, Debug, PartialEq, Eq, Structural)]
pub enum ResponseType {
    TaskStarted,
    SessionStarted,
    SessionFinished,
    VadStart,
    InterimResult,
    FinalResult,
    Heartbeat,
    Error,
    Unknown,
}

/// What a response envelope holds, as mathematical values.
pub struct EnvelopeView {
    pub message_type: Seq<char>,
    pub result_json: Seq<char>,
    pub status_message: Seq<char>,
}

/// A response envelope as it came over the wire.
#[derive(Debug)]
pub struct ResponseEnvelope {
    pub message_type: String,
    pub result_json: String,
    pub status_message: String,
}

impl View for ResponseEnvelope {
    type V = EnvelopeView;

    open spec fn view(&self) -> EnvelopeView {
        EnvelopeView {
            message_type: self.message_type@,
            result_json: self.result_json@,
            status_message: self.status_message@,
        }
    }
}

/// Why an envelope could not be read.
#[derive(Debug)]
pub struct DecodeFailure {
    pub message: String,
}

/// The envelope in which no field is set.
pub open spec fn empty_envelope() -> EnvelopeView {
    EnvelopeView {
        message_type: Seq::empty(),
        result_json: Seq::empty(),
        status_message: Seq::empty(),
    }
}

/// Effect of the field `tag`, whose value starts `rest`, on the envelope
/// read so far: the envelope after it and the bytes the value takes. A
/// field of the envelope replaces what was read before; any other field is
/// stepped over.
pub open spec fn field_effect(tag: u32, wire: u8, rest: Seq<u8>, so_far: EnvelopeView) -> Option<
    (EnvelopeView, nat),
> {
    if tag == TAG_MESSAGE_TYPE {
        match parsed_string(wire, rest) {
            Some((text, taken)) => Some((EnvelopeView { message_type: text, ..so_far }, taken)),
            None => None,
        }
    } else if tag == TAG_RESULT_JSON {
        match parsed_string(wire, rest) {
            Some((text, taken)) => Some((EnvelopeView { result_json: text, ..so_far }, taken)),
            None => None,
        }
    } else if tag == TAG_STATUS_MESSAGE {
        match parsed_string(wire, rest) {
            Some((text, taken)) => Some((EnvelopeView { status_message: text, ..so_far }, taken)),
            None => None,
        }
    } else {
        match skipped_len(wire, tag, rest) {
            Some(taken) => Some((so_far, taken)),
            None => None,
        }
    }
}

/// The envelope that `bytes` add to `so_far`, field by field; `None` where
/// a key or a value is malformed.
pub open spec fn decoded_fields(bytes: Seq<u8>, so_far: EnvelopeView) -> Option<EnvelopeView>
    decreases bytes.len(),
{
    if bytes.len() == 0 {
        Some(so_far)
    } else {
        match parsed_key(bytes) {
            Some((tag, wire, key_len)) => {
                if 0 < key_len <= bytes.len() {
                    let rest = bytes.skip(key_len as int);
                    match field_effect(tag, wire, rest, so_far) {
                        Some((next, taken)) => {
                            if taken <= rest.len() {
                                decoded_fields(rest.skip(taken as int), next)
                            } else {
                                None
                            }
                        },
                        None => None,
                    }
                } else {
                    None
                }
            },
            None => None,
        }
    }
}

/// The envelope that `bytes` hold.
pub open spec fn decoded_envelope(bytes: Seq<u8>) -> Option<EnvelopeView> {
    decoded_fields(bytes, empty_envelope())
}

/// The envelope `envelope` as a service writes it: its three fields in the
/// order of their numbers, a field that holds nothing left out.
pub open spec fn encoded_envelope(envelope: EnvelopeView) -> Seq<u8> {
    string_field(TAG_MESSAGE_TYPE, envelope.message_type) + string_field(
        TAG_RESULT_JSON,
        envelope.result_json,
    ) + string_field(TAG_STATUS_MESSAGE, envelope.status_message)
}

/// The envelope read so far after the field `tag` was read as `text`.
pub open spec fn with_field(so_far: EnvelopeView, tag: u32, text: Seq<char>) -> EnvelopeView {
    if tag == TAG_MESSAGE_TYPE {
        EnvelopeView { message_type: text, ..so_far }
    } else if tag == TAG_RESULT_JSON {
        EnvelopeView { result_json: text, ..so_far }
    } else if tag == TAG_STATUS_MESSAGE {
        EnvelopeView { status_message: text, ..so_far }
    } else {
        so_far
    }
}

/// Reading a field of the envelope that was written as a string field sets
/// that field and goes on with what follows.
pub proof fn lemma_field_reads_back(tag: u32, text: Seq<char>, rest: Seq<u8>, so_far: EnvelopeView)
    requires
        tag == TAG_MESSAGE_TYPE || tag == TAG_RESULT_JSON || tag == TAG_STATUS_MESSAGE,
        encode_utf8(text).len() <= u64::MAX,
    ensures
        decoded_fields(length_delimited_field(tag, encode_utf8(text)) + rest, so_far)
            == decoded_fields(rest, with_field(so_far, tag, text)),
{
    let field = length_delimited_field(tag, encode_utf8(text));
    let bytes = field + rest;
    let key_len = varint(field_key(tag, WIRE_LENGTH_DELIMITED)).len();
    lemma_string_field_reads_back(tag, text, rest);
    assert(0 < key_len <= field.len());
    let value = bytes.skip(key_len as int);
    let taken = (field.len() - key_len) as nat;
    assert(field_effect(tag, WIRE_LENGTH_DELIMITED, value, so_far) == Some(
        (with_field(so_far, tag, text), taken),
    ));
    assert(value.skip(taken as int) =~= rest);
}

/// What a service writes is what is read: an envelope written field by
/// field is decoded to itself.
pub proof fn lemma_envelope_reads_back(envelope: EnvelopeView)
    requires
        encode_utf8(envelope.message_type).len() <= u64::MAX,
        encode_utf8(envelope.result_json).len() <= u64::MAX,
        encode_utf8(envelope.status_message).len() <= u64::MAX,
    ensures
        decoded_envelope(encoded_envelope(envelope)) == Some(envelope),
{
    let first = string_field(TAG_MESSAGE_TYPE, envelope.message_type);
    let second = string_field(TAG_RESULT_JSON, envelope.result_json);
    let third = string_field(TAG_STATUS_MESSAGE, envelope.status_message);
    let none = Seq::<u8>::empty();
    let e0 = empty_envelope();
    let e1 = EnvelopeView { message_type: envelope.message_type, ..e0 };
    let e2 = EnvelopeView { result_json: envelope.result_json, ..e1 };
    assert(e2 == EnvelopeView { status_message: Seq::<char>::empty(), ..envelope });
    assert(envelope.status_message.len() == 0 ==> envelope.status_message =~= Seq::<char>::empty());
    assert(envelope.result_json.len() == 0 ==> envelope.result_json =~= Seq::<char>::empty());
    assert(envelope.message_type.len() == 0 ==> envelope.message_type =~= Seq::<char>::empty());
    assert(decoded_fields(third + none, e2) == Some(envelope)) by {
        if envelope.status_message.len() > 0 {
            lemma_field_reads_back(TAG_STATUS_MESSAGE, envelope.status_message, none, e2);
        } else {
            assert(third + none =~= none);
        }
    }
    assert(third + none =~= third);
    assert(decoded_fields(second + third, e1) == Some(envelope)) by {
        if envelope.result_json.len() > 0 {
            lemma_field_reads_back(TAG_RESULT_JSON, envelope.result_json, third, e1);
        } else {
            assert(second + third =~= third);
            assert(e2 == e1);
        }
    }
    assert(decoded_fields(first + (second + third), e0) == Some(envelope)) by {
        if envelope.message_type.len() > 0 {
            lemma_field_reads_back(
                TAG_MESSAGE_TYPE,
                envelope.message_type,
                second + third,
                e0,
            );
        } else {
            assert(first + (second + third) =~= second + third);
            assert(e1 == e0);
        }
    }
    assert(encoded_envelope(envelope) =~= first + (second + third));
}

/// Reads a response envelope from `data`.
pub fn decode_envelope(data: &[u8]) -> (r: Result<ResponseEnvelope, DecodeFailure>)
    ensures
        match r {
            Ok(envelope) => decoded_envelope(data@) == Some(envelope@),
            Err(_) => decoded_envelope(data@) is None,
        },
{
    let mut envelope = ResponseEnvelope {
        message_type: String::new(),
        result_json: String::new(),
        status_message: String::new(),
    };
    let mut pos: usize = 0;
    assert(data@.skip(0) =~= data@);
    assert(envelope@ == empty_envelope());
    while pos < data.len()
        invariant
            pos <= data.len(),
            decoded_envelope(data@) == decoded_fields(data@.skip(pos as int), envelope@),
        decreases data.len() - pos,
    {
        let ghost bytes = data@.skip(pos as int);
        let ghost so_far = envelope@;
        let keyed = slice_subrange(data, pos, data.len());
        assert(keyed@ =~= bytes);
        let (tag, wire, after_key) = match read_key(keyed) {
            Ok(key) => key,
            Err(e) => {
                return Err(DecodeFailure { message: decode_error_text(&e) });
            },
        };
        let value_start = data.len() - after_key;
        let ghost key_len = (bytes.len() - after_key) as nat;
        let value = slice_subrange(data, value_start, data.len());
        assert(value@ =~= bytes.skip(key_len as int));
        let after_value = if tag == TAG_MESSAGE_TYPE {
            match read_string(wire, value) {
                Ok((text, remaining)) => {
                    envelope.message_type = text;
                    remaining
                },
                Err(e) => {
                    return Err(DecodeFailure { message: decode_error_text(&e) });
                },
            }
        } else if tag == TAG_RESULT_JSON {
            match read_string(wire, value) {
                Ok((text, remaining)) => {
                    envelope.result_json = text;
                    remaining
                },
                Err(e) => {
                    return Err(DecodeFailure { message: decode_error_text(&e) });
                },
            }
        } else if tag == TAG_STATUS_MESSAGE {
            match read_string(wire, value) {
                Ok((text, remaining)) => {
                    envelope.status_message = text;
                    remaining
                },
                Err(e) => {
                    return Err(DecodeFailure { message: decode_error_text(&e) });
                },
            }
        } else {
            match skip_value(wire, tag, value) {
                Ok(remaining) => remaining,
                Err(e) => {
                    return Err(DecodeFailure { message: decode_error_text(&e) });
                },
            }
        };
        let ghost taken = (value@.len() - after_value) as nat;
        assert(field_effect(tag, wire, value@, so_far) == Some((envelope@, taken)));
        assert(value@.skip(taken as int) =~= data@.skip((data.len() - after_value) as int));
        pos = data.len() - after_value;
    }
    assert(data@.skip(pos as int).len() == 0);
    Ok(envelope)
}

/// What a typed event holds, as mathematical values.
pub struct ResponseView {
    pub response_type: ResponseType,
    pub text: Seq<char>,
    pub is_final: bool,
    pub vad_start: bool,
    pub vad_finished: bool,
    pub packet_number: i32,
    pub error_msg: Seq<char>,
    pub raw_json: Option<JsonValue>,
}

/// One typed event of the service.
#[derive(Debug)]
pub struct AsrResponse {
    pub response_type: ResponseType,
    pub text: String,
    pub is_final: bool,
    pub vad_start: bool,
    pub vad_finished: bool,
    pub packet_number: i32,
    pub error_msg: String,
    pub raw_json: Option<JsonValue>,
}

impl View for AsrResponse {
    type V = ResponseView;

    open spec fn view(&self) -> ResponseView {
        ResponseView {
            response_type: self.response_type,
            text: self.text@,
            is_final: self.is_final,
            vad_start: self.vad_start,
            vad_finished: self.vad_finished,
            packet_number: self.packet_number,
            error_msg: self.error_msg@,
            raw_json: self.raw_json,
        }
    }
}

/// The event of kind `response_type` that carries nothing else.
pub open spec fn bare_event(response_type: ResponseType) -> ResponseView {
    ResponseView {
        response_type,
        text: Seq::empty(),
        is_final: false,
        vad_start: false,
        vad_finished: false,
        packet_number: -1i32,
        error_msg: Seq::empty(),
        raw_json: None,
    }
}

impl Default for AsrResponse {
    /// An event of unknown kind that carries nothing.
    fn default() -> (response: AsrResponse)
        ensures
            response@ == bare_event(ResponseType::Unknown),
    {
        AsrResponse::bare(ResponseType::Unknown)
    }
}

impl AsrResponse {
    /// The event of kind `response_type` that carries nothing else.
    pub fn bare(response_type: ResponseType) -> (response: AsrResponse)
        ensures
            response@ == bare_event(response_type),
    {
        AsrResponse {
            response_type,
            text: String::new(),
            is_final: false,
            vad_start: false,
            vad_finished: false,
            packet_number: -1,
            error_msg: String::new(),
            raw_json: None,
        }
    }
}

/// The truth value of the member `key` of `value`.
pub open spec fn flag(value: JsonValue, key: Seq<char>) -> Option<bool> {
    match value.member(key) {
        Some(found) => found.truth(),
        None => None,
    }
}

/// The `extra` member of a document, `null` where it has none.
pub open spec fn extra_of(doc: JsonValue) -> JsonValue {
    match doc.member("extra"@) {
        Some(extra) => extra,
        None => JsonValue::Null,
    }
}

/// The packet number that a document without results reports: the integer
/// `packet_number` of its `extra`, cut to 32 bits, and -1 where it has none.
pub open spec fn packet_number_of(doc: JsonValue) -> i32 {
    match extra_of(doc).member("packet_number"@) {
        Some(number) => match number.integer() {
            Some(n) => n as i32,
            None => -1i32,
        },
        None => -1i32,
    }
}

/// The transcript that an entry of `results` carries.
pub open spec fn entry_text(entry: JsonValue) -> Option<Seq<char>> {
    match entry.member("text"@) {
        Some(text) => text.text(),
        None => None,
    }
}

/// Whether an entry says of itself that it is not interim.
pub open spec fn entry_settled(entry: JsonValue) -> bool {
    flag(entry, "is_interim"@) == Some(false)
}

/// Whether an entry says that voice activity has ended.
pub open spec fn entry_vad_finished(entry: JsonValue) -> bool {
    flag(entry, "is_vad_finished"@) == Some(true)
}

/// Whether an entry bears the mark of a result that was not streamed.
pub open spec fn entry_nonstream(entry: JsonValue) -> bool {
    match entry.member("extra"@) {
        Some(extra) => flag(extra, "nonstream_result"@) == Some(true),
        None => false,
    }
}

/// The transcript of the last entry that carries one; empty where none does.
pub open spec fn last_text(entries: Seq<JsonValue>) -> Seq<char>
    decreases entries.len(),
{
    if entries.len() == 0 {
        Seq::empty()
    } else {
        match entry_text(entries.last()) {
            Some(text) => text,
            None => last_text(entries.drop_last()),
        }
    }
}

/// Whether some entry says of itself that it is not interim.
pub open spec fn some_settled(entries: Seq<JsonValue>) -> bool {
    exists|i: int| 0 <= i < entries.len() && entry_settled(#[trigger] entries[i])
}

/// Whether some entry says that voice activity has ended.
pub open spec fn some_vad_finished(entries: Seq<JsonValue>) -> bool {
    exists|i: int| 0 <= i < entries.len() && entry_vad_finished(#[trigger] entries[i])
}

/// Whether some entry bears the mark of a result that was not streamed.
pub open spec fn some_nonstream(entries: Seq<JsonValue>) -> bool {
    exists|i: int| 0 <= i < entries.len() && entry_nonstream(#[trigger] entries[i])
}

/// The entries of `results`; none where it is not an array.
pub open spec fn entries_of(results: JsonValue) -> Seq<JsonValue> {
    match results.items() {
        Some(items) => items,
        None => Seq::empty(),
    }
}

/// Whether the entries make a final result: one was not streamed, or one
/// is not interim and one ends voice activity.
pub open spec fn is_final_result(entries: Seq<JsonValue>) -> bool {
    some_nonstream(entries) || (some_settled(entries) && some_vad_finished(entries))
}

/// The event that a result document stands for.
pub open spec fn classified_document(doc: JsonValue) -> ResponseView {
    match doc.member("results"@) {
        None => ResponseView {
            packet_number: packet_number_of(doc),
            raw_json: Some(doc),
            ..bare_event(ResponseType::Heartbeat)
        },
        Some(results) => {
            if flag(extra_of(doc), "vad_start"@) == Some(true) {
                ResponseView {
                    vad_start: true,
                    raw_json: Some(doc),
                    ..bare_event(ResponseType::VadStart)
                }
            } else if is_final_result(entries_of(results)) {
                ResponseView {
                    text: last_text(entries_of(results)),
                    is_final: true,
                    vad_finished: some_vad_finished(entries_of(results)),
                    raw_json: Some(doc),
                    ..bare_event(ResponseType::FinalResult)
                }
            } else {
                ResponseView {
                    text: last_text(entries_of(results)),
                    raw_json: Some(doc),
                    ..bare_event(ResponseType::InterimResult)
                }
            }
        },
    }
}

/// A document without `results` is a heartbeat, whatever else it holds. Its
/// packet number is the one its `extra` names, and -1 where it names none.
pub proof fn lemma_no_results_is_heartbeat(doc: JsonValue)
    requires
        doc.member("results"@) is None,
    ensures
        classified_document(doc).response_type == ResponseType::Heartbeat,
        classified_document(doc).packet_number == packet_number_of(doc),
        extra_of(doc).member("packet_number"@) is None ==> classified_document(doc).packet_number
            == -1,
        classified_document(doc).raw_json == Some(doc),
{
}

/// The last entry that carries a transcript gives the transcript: a later
/// entry replaces what an earlier one said, and entries without a
/// transcript change nothing.
pub proof fn lemma_last_text_wins(entries: Seq<JsonValue>, i: int)
    requires
        0 <= i < entries.len(),
        entry_text(entries[i]) is Some,
        forall|j: int| i < j < entries.len() ==> entry_text(#[trigger] entries[j]) is None,
    ensures
        last_text(entries) == entry_text(entries[i])->0,
    decreases entries.len(),
{
    if i < entries.len() - 1 {
        let shorter = entries.drop_last();
        assert(entry_text(entries.last()) is None);
        assert(shorter[i] == entries[i]);
        assert forall|j: int| i < j < shorter.len() implies entry_text(#[trigger] shorter[j])
            is None by {
            assert(shorter[j] == entries[j]);
        }
        lemma_last_text_wins(shorter, i);
    }
}

/// Reads the truth value of the member `key` of `value`.
fn read_flag(value: &JsonValue, key: &str) -> (r: Option<bool>)
    ensures
        r == flag(*value, key@),
{
    match value.get(key) {
        Some(found) => found.as_bool(),
        None => None,
    }
}

/// What the scan of the entries of `results` finds.
struct Scan {
    text: String,
    settled: bool,
    vad_finished: bool,
    nonstream: bool,
}

/// Goes through the entries of `results` once.
fn scan_entries(results: &JsonValue) -> (scan: Scan)
    ensures
        scan.text@ == last_text(entries_of(*results)),
        scan.settled == some_settled(entries_of(*results)),
        scan.vad_finished == some_vad_finished(entries_of(*results)),
        scan.nonstream == some_nonstream(entries_of(*results)),
{
    let mut scan = Scan {
        text: String::new(),
        settled: false,
        vad_finished: false,
        nonstream: false,
    };
    let entries = match results.as_array() {
        Some(entries) => entries,
        None => {
            return scan;
        },
    };
    let mut i: usize = 0;
    assert(entries@.take(0) =~= Seq::<JsonValue>::empty());
    while i < entries.len()
        invariant
            i <= entries.len(),
            entries@ == entries_of(*results),
            scan.text@ == last_text(entries@.take(i as int)),
            scan.settled == (exists|j: int| 0 <= j < i && entry_settled(#[trigger] entries@[j])),
            scan.vad_finished == (exists|j: int|
                0 <= j < i && entry_vad_finished(#[trigger] entries@[j])),
            scan.nonstream == (exists|j: int| 0 <= j < i && entry_nonstream(#[trigger] entries@[j])),
        decreases entries.len() - i,
    {
        let entry = &entries[i];
        let ghost seen = entries@.take(i + 1);
        assert(seen.last() == entries@[i as int]);
        assert(seen.drop_last() =~= entries@.take(i as int));
        match entry.get("text") {
            Some(found) => match found.as_str() {
                Some(text) => {
                    scan.text = text.to_owned();
                },
                None => {},
            },
            None => {},
        }
        match read_flag(entry, "is_interim") {
            Some(false) => {
                scan.settled = true;
            },
            _ => {},
        }
        match read_flag(entry, "is_vad_finished") {
            Some(true) => {
                scan.vad_finished = true;
            },
            _ => {},
        }
        match entry.get("extra") {
            Some(extra) => match read_flag(extra, "nonstream_result") {
                Some(true) => {
                    scan.nonstream = true;
                },
                _ => {},
            },
            None => {},
        }
        i += 1;
    }
    assert(entries@.take(i as int) =~= entries@);
    scan
}

/// Classifies a result document: a document without `results` is a
/// heartbeat; one whose `extra` marks the start of voice activity reports
/// that; any other is a final or an interim result with the transcript of
/// its last entry that has one.
pub fn classify_document(doc: JsonValue) -> (response: AsrResponse)
    ensures
        response@ == classified_document(doc),
{
    let mut response = AsrResponse::bare(ResponseType::Heartbeat);
    match doc.get("results") {
        None => {
            let packet = match doc.get("extra") {
                Some(extra) => match extra.get("packet_number") {
                    Some(number) => number.as_i64(),
                    None => None,
                },
                None => None,
            };
            match packet {
                Some(n) => {
                    response.packet_number = #[verifier::truncate]
                    (n as i32);
                },
                None => {},
            }
        },
        Some(results) => {
            let vad_start = match doc.get("extra") {
                Some(extra) => read_flag(extra, "vad_start"),
                None => None,
            };
            match vad_start {
                Some(true) => {
                    response.response_type = ResponseType::VadStart;
                    response.vad_start = true;
                },
                _ => {
                    let scan = scan_entries(results);
                    response.text = scan.text;
                    if scan.nonstream || (scan.settled && scan.vad_finished) {
                        response.response_type = ResponseType::FinalResult;
                        response.is_final = true;
                        response.vad_finished = scan.vad_finished;
                    } else {
                        response.response_type = ResponseType::InterimResult;
                    }
                },
            }
        },
    }
    response.raw_json = Some(doc);
    response
}

/// Whether the kind of the envelope leaves the event to its result document.
pub open spec fn reads_document(envelope: EnvelopeView) -> bool {
    envelope.message_type != "TaskStarted"@ && envelope.message_type != "SessionStarted"@
        && envelope.message_type != "SessionFinished"@ && envelope.message_type != "TaskFailed"@
        && envelope.message_type != "SessionFailed"@ && envelope.result_json.len() != 0
}

/// The event that an envelope stands for, where `doc` is what its result
/// document reads as. The three lifecycle kinds give their event at once,
/// the two failures an error with the status message; any other kind is
/// classified by the document, and is unknown where there is none.
pub open spec fn classified_envelope(envelope: EnvelopeView, doc: Option<JsonValue>) -> ResponseView {
    if envelope.message_type == "TaskStarted"@ {
        bare_event(ResponseType::TaskStarted)
    } else if envelope.message_type == "SessionStarted"@ {
        bare_event(ResponseType::SessionStarted)
    } else if envelope.message_type == "SessionFinished"@ {
        bare_event(ResponseType::SessionFinished)
    } else if envelope.message_type == "TaskFailed"@ || envelope.message_type == "SessionFailed"@ {
        ResponseView { error_msg: envelope.status_message, ..bare_event(ResponseType::Error) }
    } else if envelope.result_json.len() == 0 {
        bare_event(ResponseType::Unknown)
    } else {
        match doc {
            Some(doc) => classified_document(doc),
            None => bare_event(ResponseType::Unknown),
        }
    }
}

/// The event of an envelope that could not be read: an error whose message
/// is `message`.
pub open spec fn decode_error_event(message: Seq<char>) -> ResponseView {
    ResponseView { error_msg: message, ..bare_event(ResponseType::Error) }
}

/// Whether the event of `envelope` depends on its result document.
pub fn needs_document(envelope: &ResponseEnvelope) -> (needed: bool)
    ensures
        needed == reads_document(envelope@),
{
    let kind = envelope.message_type.as_str();
    !same_text(kind, "TaskStarted") && !same_text(kind, "SessionStarted") && !same_text(
        kind,
        "SessionFinished",
    ) && !same_text(kind, "TaskFailed") && !same_text(kind, "SessionFailed")
        && !envelope.result_json.as_str().is_empty()
}

/// Classifies an envelope, given what its result document reads as.
pub fn classify_envelope(envelope: ResponseEnvelope, doc: Option<JsonValue>) -> (response:
    AsrResponse)
    ensures
        response@ == classified_envelope(envelope@, doc),
{
    let kind = envelope.message_type.as_str();
    if same_text(kind, "TaskStarted") {
        AsrResponse::bare(ResponseType::TaskStarted)
    } else if same_text(kind, "SessionStarted") {
        AsrResponse::bare(ResponseType::SessionStarted)
    } else if same_text(kind, "SessionFinished") {
        AsrResponse::bare(ResponseType::SessionFinished)
    } else if same_text(kind, "TaskFailed") || same_text(kind, "SessionFailed") {
        let mut response = AsrResponse::bare(ResponseType::Error);
        response.error_msg = envelope.status_message;
        response
    } else if envelope.result_json.as_str().is_empty() {
        AsrResponse::bare(ResponseType::Unknown)
    } else {
        match doc {
            Some(doc) => classify_document(doc),
            None => AsrResponse::bare(ResponseType::Unknown),
        }
    }
}

/// Reads one envelope from `data` and classifies it. Bytes that are no
/// envelope give an error event, never a fault.
pub fn parse_response(data: &[u8]) -> (response: AsrResponse)
    ensures
        match decoded_envelope(data@) {
            Some(envelope) => response@ == classified_envelope(
                envelope,
                json_document(envelope.result_json),
            ),
            None => response@ == decode_error_event(response@.error_msg)
                && "Decode error: "@.is_prefix_of(response@.error_msg),
        },
{
    match decode_envelope(data) {
        Ok(envelope) => {
            let doc = if needs_document(&envelope) {
                read_document(envelope.result_json.as_str())
            } else {
                None
            };
            classify_envelope(envelope, doc)
        },
        Err(failure) => {
            let mut response = AsrResponse::bare(ResponseType::Error);
            let mut message = "Decode error: ".to_owned();
            message.append(failure.message.as_str());
            response.error_msg = message;
            response
        },
    }
}

} // verus!
