//! Protocol Buffers wire primitives.
//!
//! The byte layout of a field is stated here as spec functions; the bytes
//! themselves are written and read by `prost::encoding`, whose functions are
//! called through the trusted wrappers at the end of this file.

use vstd::prelude::*;
use vstd::utf8::*;

verus! {

/// Smallest field number a message may use.
pub const MIN_TAG: u32 = 1;

/// Largest field number a message may use.
pub const MAX_TAG: u32 = 536870911;

/// Wire type of a variable-length integer.
pub const WIRE_VARINT: u8 = 0;

/// Wire type of a length-prefixed run of bytes.
pub const WIRE_LENGTH_DELIMITED: u8 = 2;

/// Highest wire type number in use.
pub const WIRE_MAX: u8 = 5;

/// LEB128 encoding of `value`: seven bits per byte, least significant group
/// first, the high bit set on every byte but the last.
pub open spec fn varint(value: nat) -> Seq<u8>
    decreases value,
{
    if value < 128 {
        seq![value as u8]
    } else {
        seq![(value % 128 + 128) as u8] + varint(value / 128)
    }
}

/// Number that precedes a field on the wire: the field number above the
/// three bits of the wire type.
pub open spec fn field_key(tag: u32, wire: u8) -> nat {
    (tag as nat) * 8 + (wire as nat)
}

/// Bytes of a length-delimited field: key, length of the content, content.
pub open spec fn length_delimited_field(tag: u32, content: Seq<u8>) -> Seq<u8> {
    varint(field_key(tag, WIRE_LENGTH_DELIMITED)) + varint(content.len()) + content
}

/// Bytes of a varint field: key, then the value.
pub open spec fn varint_field(tag: u32, value: nat) -> Seq<u8> {
    varint(field_key(tag, WIRE_VARINT)) + varint(value)
}

/// The LEB128 number at the front of `bytes`, read over at most `budget`
/// bytes: its value and how many bytes it takes.
pub open spec fn leb128_prefix(bytes: Seq<u8>, budget: nat) -> Option<(nat, nat)>
    decreases budget,
{
    if budget == 0 || bytes.len() == 0 {
        None
    } else if bytes[0] < 128 {
        Some((bytes[0] as nat, 1nat))
    } else {
        match leb128_prefix(bytes.drop_first(), (budget - 1) as nat) {
            Some((rest, taken)) => Some(((bytes[0] - 128) as nat + 128 * rest, taken + 1)),
            None => None,
        }
    }
}

/// The varint at the front of `bytes`: at most ten bytes long and no larger
/// than 64 bits hold. `None` where the bytes end early or the number is too
/// large.
pub open spec fn parsed_varint(bytes: Seq<u8>) -> Option<(nat, nat)> {
    match leb128_prefix(bytes, 10) {
        Some((value, taken)) => if value <= u64::MAX {
            Some((value, taken))
        } else {
            None
        },
        None => None,
    }
}

/// The field key at the front of `bytes`: field number, wire type and the
/// number of bytes the key takes. `None` where no varint stands there, the
/// key exceeds 32 bits, the wire type is unknown or the field number is 0.
pub open spec fn parsed_key(bytes: Seq<u8>) -> Option<(u32, u8, nat)> {
    match parsed_varint(bytes) {
        Some((key, taken)) => if key <= u32::MAX && key % 8 <= WIRE_MAX && key / 8 >= MIN_TAG {
            Some(((key / 8) as u32, (key % 8) as u8, taken))
        } else {
            None
        },
        None => None,
    }
}

/// The length-delimited content at the front of `bytes`, which follows a key
/// of wire type `wire`: the content and the bytes taken, prefix included.
pub open spec fn parsed_delimited(wire: u8, bytes: Seq<u8>) -> Option<(Seq<u8>, nat)> {
    if wire != WIRE_LENGTH_DELIMITED {
        None
    } else {
        match parsed_varint(bytes) {
            Some((len, taken)) => if taken + len <= bytes.len() {
                Some((bytes.subrange(taken as int, (taken + len) as int), taken + len))
            } else {
                None
            },
            None => None,
        }
    }
}

/// The string field at the front of `bytes`: its text and the bytes taken.
/// `None` where the content is missing, cut short or not UTF-8.
pub open spec fn parsed_string(wire: u8, bytes: Seq<u8>) -> Option<(Seq<char>, nat)> {
    match parsed_delimited(wire, bytes) {
        Some((content, taken)) => if valid_utf8(content) {
            Some((decode_utf8(content), taken))
        } else {
            None
        },
        None => None,
    }
}

/// Number of bytes that the value of a field of no interest takes at the
/// front of `bytes`, as `prost::encoding::skip_field` finds it; `None` where
/// that function reports an error.
pub uninterp spec fn skipped_len(wire: u8, tag: u32, bytes: Seq<u8>) -> Option<nat>;

/// Number of values that `digits` groups of seven bits can tell apart.
pub open spec fn capacity(digits: nat) -> nat
    decreases digits,
{
    if digits == 0 {
        1
    } else {
        128 * capacity((digits - 1) as nat)
    }
}

/// A number that fits `budget` groups of seven bits is read back from its
/// encoding, whatever follows it.
pub proof fn lemma_leb128_reads_back(value: nat, rest: Seq<u8>, budget: nat)
    requires
        budget >= 1,
        value < capacity(budget),
    ensures
        leb128_prefix(varint(value) + rest, budget) == Some((value, varint(value).len())),
    decreases budget,
{
    let bytes = varint(value) + rest;
    if value < 128 {
        assert(bytes[0] == value as u8);
        assert(varint(value).len() == 1);
    } else {
        let high = value / 128;
        assert(budget >= 2) by {
            if budget == 1 {
                assert(capacity(1) == 128 * capacity(0));
            }
        }
        assert(high < capacity((budget - 1) as nat));
        assert(bytes[0] == (value % 128 + 128) as u8);
        assert(bytes.drop_first() =~= varint(high) + rest);
        lemma_leb128_reads_back(high, rest, (budget - 1) as nat);
        assert(varint(value).len() == varint(high).len() + 1);
        assert((bytes[0] - 128) as nat + 128 * high == value);
    }
}

/// A number of 64 bits is read back from its varint, whatever follows it.
pub proof fn lemma_varint_reads_back(value: nat, rest: Seq<u8>)
    requires
        value <= u64::MAX,
    ensures
        parsed_varint(varint(value) + rest) == Some((value, varint(value).len())),
{
    assert(capacity(10) == 1180591620717411303424) by {
        reveal_with_fuel(capacity, 11);
    }
    lemma_leb128_reads_back(value, rest, 10);
}

/// The key of a field is read back as its field number and wire type.
pub proof fn lemma_key_reads_back(tag: u32, wire: u8, rest: Seq<u8>)
    requires
        MIN_TAG <= tag <= MAX_TAG,
        wire <= WIRE_MAX,
    ensures
        parsed_key(varint(field_key(tag, wire)) + rest) == Some(
            (tag, wire, varint(field_key(tag, wire)).len()),
        ),
{
    lemma_varint_reads_back(field_key(tag, wire), rest);
}

/// A string field that is written is read back as the same text: the key
/// gives the field number, and the value that follows gives the text and
/// ends where the field ends.
pub proof fn lemma_string_field_reads_back(tag: u32, text: Seq<char>, rest: Seq<u8>)
    requires
        MIN_TAG <= tag <= MAX_TAG,
        encode_utf8(text).len() <= u64::MAX,
    ensures
        ({
            let field = length_delimited_field(tag, encode_utf8(text));
            let key_len = varint(field_key(tag, WIRE_LENGTH_DELIMITED)).len();
            &&& parsed_key(field + rest) == Some((tag, WIRE_LENGTH_DELIMITED, key_len))
            &&& parsed_string(WIRE_LENGTH_DELIMITED, (field + rest).skip(key_len as int)) == Some(
                (text, (field.len() - key_len) as nat),
            )
        }),
{
    let content = encode_utf8(text);
    let key = varint(field_key(tag, WIRE_LENGTH_DELIMITED));
    let prefix = varint(content.len());
    let field = length_delimited_field(tag, content);
    assert(field + rest =~= key + (prefix + content + rest));
    lemma_key_reads_back(tag, WIRE_LENGTH_DELIMITED, prefix + content + rest);
    let value = (field + rest).skip(key.len() as int);
    assert(value =~= prefix + (content + rest));
    lemma_varint_reads_back(content.len(), content + rest);
    assert(value.subrange(prefix.len() as int, (prefix.len() + content.len()) as int) =~= content);
    encode_utf8_valid_utf8(text);
    encode_utf8_decode_utf8(text);
}

/// Error of the decoder in `prost`.
#[verifier::external_type_specification]
#[verifier::external_body]
pub struct ExDecodeError(prost::DecodeError);

/// Calls `prost::encoding::string::encode`, which appends to `buf` the key
/// of a length-delimited field, the byte length of `value` as a varint, and
/// the UTF-8 bytes of `value`.
#[verifier::external_body]
pub(crate) fn put_string_field(tag: u32, value: &String, buf: &mut Vec<u8>)
    requires
        MIN_TAG <= tag <= MAX_TAG,
    ensures
        final(buf)@ == old(buf)@ + length_delimited_field(tag, encode_utf8(value@)),
{
    prost::encoding::string::encode(tag, value, buf)
}

/// Calls `prost::encoding::bytes::encode`, which appends to `buf` the key of
/// a length-delimited field, the length of `value` as a varint, and `value`.
#[verifier::external_body]
pub(crate) fn put_bytes_field(tag: u32, value: &Vec<u8>, buf: &mut Vec<u8>)
    requires
        MIN_TAG <= tag <= MAX_TAG,
    ensures
        final(buf)@ == old(buf)@ + length_delimited_field(tag, value@),
{
    prost::encoding::bytes::encode(tag, value, buf)
}

/// Calls `prost::encoding::int32::encode`, which appends to `buf` the key of
/// a varint field and `value` as a varint. Negative values are left out:
/// the function widens them to 64 bits first.
#[verifier::external_body]
pub(crate) fn put_int32_field(tag: u32, value: i32, buf: &mut Vec<u8>)
    requires
        MIN_TAG <= tag <= MAX_TAG,
        0 <= value,
    ensures
        final(buf)@ == old(buf)@ + varint_field(tag, value as nat),
{
    prost::encoding::int32::encode(tag, &value, buf)
}

/// Calls `prost::encoding::decode_key` on `rest`, which reads one varint and
/// splits it into field number and wire type. Returns them with the number
/// of bytes that remain behind the key.
#[verifier::external_body]
pub(crate) fn read_key(rest: &[u8]) -> (r: Result<(u32, u8, usize), prost::DecodeError>)
    ensures
        match r {
            Ok((tag, wire, remaining)) => remaining < rest@.len() && parsed_key(rest@) == Some(
                (tag, wire, (rest@.len() - remaining) as nat),
            ),
            Err(_) => parsed_key(rest@) is None,
        },
{
    let mut buf = rest;
    let (tag, wire_type) = prost::encoding::decode_key(&mut buf)?;
    Ok((tag, wire_type as u8, buf.len()))
}

/// Calls `prost::encoding::string::merge` on `rest`, which accepts only a
/// length-delimited field, reads its length and content, and refuses
/// content that is not UTF-8. Returns the text with the number of bytes that
/// remain behind the field.
#[verifier::external_body]
pub(crate) fn read_string(wire: u8, rest: &[u8]) -> (r: Result<(String, usize), prost::DecodeError>)
    requires
        wire <= WIRE_MAX,
    ensures
        match r {
            Ok((text, remaining)) => remaining <= rest@.len() && parsed_string(wire, rest@) == Some(
                (text@, (rest@.len() - remaining) as nat),
            ),
            Err(_) => parsed_string(wire, rest@) is None,
        },
{
    let mut buf = rest;
    let mut text = String::new();
    let wire_type = prost::encoding::WireType::try_from(u64::from(wire))?;
    let ctx = prost::encoding::DecodeContext::default();
    prost::encoding::string::merge(wire_type, &mut text, &mut buf, ctx)?;
    Ok((text, buf.len()))
}

/// Calls `prost::encoding::skip_field` on `rest`, which steps over the value
/// of a field. Returns the number of bytes that remain behind it.
#[verifier::external_body]
pub(crate) fn skip_value(wire: u8, tag: u32, rest: &[u8]) -> (r: Result<usize, prost::DecodeError>)
    requires
        wire <= WIRE_MAX,
    ensures
        match r {
            Ok(remaining) => remaining <= rest@.len() && skipped_len(wire, tag, rest@) == Some(
                (rest@.len() - remaining) as nat,
            ),
            Err(_) => skipped_len(wire, tag, rest@) is None,
        },
{
    let mut buf = rest;
    let wire_type = prost::encoding::WireType::try_from(u64::from(wire))?;
    let ctx = prost::encoding::DecodeContext::default();
    prost::encoding::skip_field(wire_type, tag, &mut buf, ctx)?;
    Ok(buf.len())
}

/// Calls `to_string` on a `prost::DecodeError`: the message of the error.
#[verifier::external_body]
pub(crate) fn decode_error_text(error: &prost::DecodeError) -> (text: String) {
    error.to_string()
}

} // verus!
