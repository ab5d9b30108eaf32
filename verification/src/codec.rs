//! The canonical binary encoding of values: one tag byte, then a payload
//! whose layout the tag determines. All integers are little-endian.
//!
//! | kind  | payload bytes | layout                                             |
//! |-------|---------------|----------------------------------------------------|
//! | Int   | 8             | the integer as a signed 64-bit word                |
//! | Float | 8             | the IEEE-754 bit pattern                           |
//! | Bool  | 1             | `0x01` for true, `0x00` for false                  |
//! | Str   | 4 + N         | N as an unsigned 32-bit word, then N bytes of UTF-8|
//! | Char  | 1             | the low 8 bits of the scalar value                 |

use crate::little_endian::{
    le_bytes, le_value, lemma_le_bytes_len, lemma_le_value_of_le_bytes, lemma_radix_pow_values,
    push_le, read_le, signed64_of, to_signed64, to_unsigned64, unsigned64_of,
};
use crate::text::{lossy_text, string_from_utf8_lossy, utf8_lossy, REPLACEMENT_CHARACTER};
use crate::types::{decode_type_spec, type_of_tag, Type, TypeError};
use crate::values::{Value, ValueError, ValueView};
use vstd::prelude::*;
use vstd::slice::slice_subrange;
use vstd::std_specs::convert::{FromSpecImpl, TryFromSpecImpl};
use vstd::utf8::{encode_utf8, encode_utf8_decode_utf8, encode_utf8_valid_utf8, valid_utf8};

verus! {

/// The payload that follows the tag byte in the encoding of `value`.
pub open spec fn encode_payload_spec(value: ValueView) -> Seq<u8> {
    match value {
        ValueView::Int(i) => le_bytes(to_unsigned64(i), 8),
        ValueView::Float(bits) => le_bytes(bits as nat, 8),
        ValueView::Bool(b) => seq![if b { 1u8 } else { 0u8 }],
        ValueView::Str(s) => le_bytes(encode_utf8(s).len(), 4) + encode_utf8(s),
        ValueView::Char(c) => seq![(c as u32 % 256) as u8],
    }
}

/// The canonical encoding of `value`: the tag of its kind, then its payload.
pub open spec fn encode_spec(value: ValueView) -> Seq<u8> {
    seq![value.type_of().spec_tag()] + encode_payload_spec(value)
}

/// The value that a payload of kind `ty` holds, or `IncompatibleSize` where
/// the payload does not have the length that the kind requires.
///
/// An `Int` is the signed 64-bit word of the payload, narrowed to the
/// platform width; a `Bool` is true for any nonzero byte; a `Char` is the
/// scalar value that the byte itself is; text is decoded lossily.
pub open spec fn decode_payload_spec(ty: Type, payload: Seq<u8>) -> Result<ValueView, ValueError> {
    match ty {
        Type::Int => if payload.len() == 8 {
            Ok(ValueView::Int((to_signed64(le_value(payload)) as isize) as int))
        } else {
            Err(ValueError::IncompatibleSize)
        },
        Type::Float => if payload.len() == 8 {
            Ok(ValueView::Float(le_value(payload) as u64))
        } else {
            Err(ValueError::IncompatibleSize)
        },
        Type::Bool => if payload.len() == 1 {
            Ok(ValueView::Bool(payload[0] != 0))
        } else {
            Err(ValueError::IncompatibleSize)
        },
        Type::Str => if payload.len() >= 4 && le_value(payload.take(4)) == payload.len() - 4 {
            Ok(ValueView::Str(lossy_text(payload.skip(4))))
        } else {
            Err(ValueError::IncompatibleSize)
        },
        Type::Char => if payload.len() == 1 {
            Ok(ValueView::Char(payload[0] as char))
        } else {
            Err(ValueError::IncompatibleSize)
        },
    }
}

/// What decoding `bytes` yields: `NoTag` for the empty buffer, the registry's
/// error for a first byte that names no kind, and otherwise what the payload
/// after the first byte holds.
pub open spec fn decode_spec(bytes: Seq<u8>) -> Result<ValueView, ValueError> {
    if bytes.len() == 0 {
        Err(ValueError::NoTag)
    } else {
        match decode_type_spec(bytes[0]) {
            Err(e) => Err(ValueError::Type(e)),
            Ok(ty) => decode_payload_spec(ty, bytes.skip(1)),
        }
    }
}

/// Whether `payload` has the length that kind `ty` requires: 8 bytes for
/// `Int` and `Float`, 1 byte for `Bool` and `Char`, and for `Str` a 4-byte
/// length prefix that counts exactly the bytes after it.
pub open spec fn payload_fits(ty: Type, payload: Seq<u8>) -> bool {
    match ty {
        Type::Int | Type::Float => payload.len() == 8,
        Type::Bool | Type::Char => payload.len() == 1,
        Type::Str => payload.len() >= 4 && le_value(payload.take(4)) == payload.len() - 4,
    }
}

/// Whether `bytes` is a tag byte of some kind followed by a payload of the
/// length that the kind requires.
pub open spec fn well_framed(bytes: Seq<u8>) -> bool {
    bytes.len() > 0 && match type_of_tag(bytes[0]) {
        Some(ty) => payload_fits(ty, bytes.skip(1)),
        None => false,
    }
}

/// Whether the encoding carries `value` without loss. It does not for a
/// `Char` above U+00FF, of which only the low 8 bits are written, nor for
/// text of 2^32 bytes or more, whose length does not fit the prefix.
pub open spec fn carried_exactly(value: ValueView) -> bool {
    match value {
        ValueView::Str(s) => encode_utf8(s).len() < 0x1_0000_0000,
        ValueView::Char(c) => (c as u32) < 256,
        _ => true,
    }
}

/// Whether an executable decoding result is the one that the specification gives.
pub open spec fn decoded_as(
    result: Result<Value, ValueError>,
    expected: Result<ValueView, ValueError>,
) -> bool {
    match result {
        Ok(value) => expected matches Ok(view) && view == value@,
        Err(error) => expected matches Err(e) && e == error,
    }
}

/// Encodes a value: the tag of its kind, then the payload.
pub fn encode(value: &Value) -> (bytes: Vec<u8>)
    ensures
        bytes@ == encode_spec(value@),
{
    let mut buffer: Vec<u8> = Vec::new();
    buffer.push(value.type_of().tag());
    match value {
        Value::Int(i) => {
            push_le(&mut buffer, unsigned64_of(*i as i64), 8);
        },
        Value::Float(bits) => {
            push_le(&mut buffer, *bits, 8);
        },
        Value::Bool(b) => {
            buffer.push(if *b { 1 } else { 0 });
        },
        Value::Str(s) => {
            let text: &[u8] = s.as_str().as_bytes();
            let ghost prefix = le_bytes(text@.len(), 4);
            push_le(&mut buffer, text.len() as u64, 4);
            buffer.extend_from_slice(text);
            assert(buffer@ =~= seq![Type::Str.spec_tag()] + (prefix + text@));
        },
        Value::Char(c) => {
            buffer.push((*c as u32 % 256) as u8);
        },
    }
    assert(buffer@ =~= encode_spec(value@));
    buffer
}

/// Decodes the payload of a value of kind `ty`, enforcing the exact length
/// that the kind requires.
pub fn decode_payload(ty: Type, payload: &[u8]) -> (result: Result<Value, ValueError>)
    ensures
        decoded_as(result, decode_payload_spec(ty, payload@)),
        result is Ok <==> payload_fits(ty, payload@),
        result is Err ==> result matches Err(ValueError::IncompatibleSize),
        result matches Ok(Value::Str(text)) ==> (valid_utf8(payload@.skip(4)) || text@.contains(
            REPLACEMENT_CHARACTER,
        )),
{
    let len: usize = payload.len();
    match ty {
        Type::Int => {
            if len != 8 {
                return Err(ValueError::IncompatibleSize);
            }
            assert(payload@.subrange(0, 8) =~= payload@);
            let word: i64 = signed64_of(read_le(payload, 0, 8));
            Ok(Value::Int(#[verifier::truncate] (word as isize)))
        },
        Type::Float => {
            if len != 8 {
                return Err(ValueError::IncompatibleSize);
            }
            assert(payload@.subrange(0, 8) =~= payload@);
            Ok(Value::Float(read_le(payload, 0, 8)))
        },
        Type::Bool => {
            if len != 1 {
                return Err(ValueError::IncompatibleSize);
            }
            Ok(Value::Bool(payload[0] != 0))
        },
        Type::Str => {
            if len < 4 {
                return Err(ValueError::IncompatibleSize);
            }
            let declared: u64 = read_le(payload, 0, 4);
            if (len - 4) as u64 != declared {
                return Err(ValueError::IncompatibleSize);
            }
            let text: String = string_from_utf8_lossy(slice_subrange(payload, 4, len));
            Ok(Value::from(text))
        },
        Type::Char => {
            if len != 1 {
                return Err(ValueError::IncompatibleSize);
            }
            Ok(Value::Char(payload[0] as char))
        },
    }
}

/// Decodes a buffer that holds exactly one encoded value.
///
/// The empty buffer has no tag; a first byte outside `0x20..=0x24` names no
/// kind; and a payload whose length is not the one its kind requires is
/// refused. Text that is not well-formed UTF-8 is not refused: it is decoded
/// lossily.
pub fn decode(bytes: &[u8]) -> (result: Result<Value, ValueError>)
    ensures
        decoded_as(result, decode_spec(bytes@)),
        result is Ok <==> well_framed(bytes@),
        bytes@.len() == 0 ==> result matches Err(ValueError::NoTag),
        bytes@.len() > 0 && type_of_tag(bytes@[0]) is None ==> (result matches Err(
            ValueError::Type(TypeError::InvalidType(byte)),
        ) && byte == bytes@[0]),
        bytes@.len() > 0 && type_of_tag(bytes@[0]) is Some && !well_framed(bytes@)
            ==> result matches Err(ValueError::IncompatibleSize),
        result matches Ok(Value::Str(text)) ==> (valid_utf8(bytes@.skip(5)) || text@.contains(
            REPLACEMENT_CHARACTER,
        )),
{
    let len: usize = bytes.len();
    if len == 0 {
        return Err(ValueError::NoTag);
    }
    match Type::try_from(bytes[0]) {
        Err(e) => Err(ValueError::from(e)),
        Ok(ty) => {
            proof {
                if len >= 5 {
                    assert(bytes@.skip(1).skip(4) =~= bytes@.skip(5));
                }
            }
            decode_payload(ty, slice_subrange(bytes, 1, len))
        },
    }
}

/// Decoding succeeds exactly on the payloads of the required length, and
/// every failure is `IncompatibleSize`: an `Int` or `Float` payload of other
/// than 8 bytes is refused, a `Bool` or `Char` payload of other than 1 byte,
/// and a `Str` payload of under 4 bytes or with a length prefix that is not
/// the number of bytes after it.
pub proof fn lemma_size_enforced(ty: Type, payload: Seq<u8>)
    ensures
        decode_payload_spec(ty, payload) is Ok <==> payload_fits(ty, payload),
        !payload_fits(ty, payload) ==> decode_payload_spec(ty, payload) matches Err(
            ValueError::IncompatibleSize,
        ),
        (ty is Int || ty is Float) && payload.len() != 8 ==> !payload_fits(ty, payload),
        (ty is Bool || ty is Char) && payload.len() != 1 ==> !payload_fits(ty, payload),
        ty is Str && payload.len() < 4 ==> !payload_fits(ty, payload),
        ty is Str && payload.len() >= 4 && le_value(payload.take(4)) != payload.len() - 4
            ==> !payload_fits(ty, payload),
{
}

/// A buffer decodes to a value exactly when it is well framed; the empty
/// buffer fails with `NoTag`, a first byte outside the value-kind band fails
/// with the registry's error for that byte, and every other failure is
/// `IncompatibleSize`.
pub proof fn lemma_decode_outcomes(bytes: Seq<u8>)
    ensures
        decode_spec(bytes) is Ok <==> well_framed(bytes),
        bytes.len() == 0 ==> decode_spec(bytes) matches Err(ValueError::NoTag),
        bytes.len() > 0 && type_of_tag(bytes[0]) is None ==> (decode_spec(bytes) matches Err(
            ValueError::Type(TypeError::InvalidType(byte)),
        ) && byte == bytes[0]),
        bytes.len() > 0 && type_of_tag(bytes[0]) is Some && !well_framed(bytes) ==> decode_spec(
            bytes,
        ) matches Err(ValueError::IncompatibleSize),
{
    if bytes.len() > 0 {
        match type_of_tag(bytes[0]) {
            Some(ty) => lemma_size_enforced(ty, bytes.skip(1)),
            None => {},
        }
    }
}

/// Text is never refused for its content: a `Str` buffer whose length prefix
/// counts the bytes after it decodes to text whether or not those bytes are
/// well-formed UTF-8. Ill-formed bytes come out decoded lossily.
pub proof fn lemma_text_decodes_lossily(bytes: Seq<u8>)
    requires
        bytes.len() >= 5,
        bytes[0] == Type::Str.spec_tag(),
        le_value(bytes.subrange(1, 5)) == bytes.len() - 5,
    ensures
        decode_spec(bytes) matches Ok(ValueView::Str(text)) && text == lossy_text(bytes.skip(5)),
        !valid_utf8(bytes.skip(5)) ==> (decode_spec(bytes) matches Ok(ValueView::Str(text)) && text
            == utf8_lossy(bytes.skip(5))),
{
    let payload = bytes.skip(1);
    assert(payload.take(4) =~= bytes.subrange(1, 5));
    assert(payload.skip(4) =~= bytes.skip(5));
}

/// Encoding never produces the empty buffer, and what it produces is well
/// framed when the text, if any, is shorter than 2^32 bytes.
pub proof fn lemma_encode_well_framed(value: Value)
    requires
        value@ matches ValueView::Str(s) ==> encode_utf8(s).len() < 0x1_0000_0000,
    ensures
        encode_spec(value@).len() > 0,
        encode_spec(value@)[0] == value@.type_of().spec_tag(),
        well_framed(encode_spec(value@)),
{
    let bytes = encode_spec(value@);
    let payload = encode_payload_spec(value@);
    assert(bytes.skip(1) =~= payload);
    lemma_radix_pow_values();
    match value@ {
        ValueView::Int(i) => {
            lemma_le_bytes_len(to_unsigned64(i), 8);
        },
        ValueView::Float(bits) => {
            lemma_le_bytes_len(bits as nat, 8);
        },
        ValueView::Bool(b) => {},
        ValueView::Str(s) => {
            let text = encode_utf8(s);
            lemma_le_bytes_len(text.len(), 4);
            lemma_le_value_of_le_bytes(text.len(), 4);
            assert(payload.take(4) =~= le_bytes(text.len(), 4));
        },
        ValueView::Char(c) => {},
    }
}

/// Round trip: decoding the encoding of a value gives the value back. Floats
/// come back bit for bit. The law holds of every value that the encoding
/// carries without loss (see [`carried_exactly`]).
pub proof fn lemma_decode_encode(value: Value)
    requires
        carried_exactly(value@),
    ensures
        decode_spec(encode_spec(value@)) matches Ok(decoded) && decoded == value@,
{
    let bytes = encode_spec(value@);
    let payload = encode_payload_spec(value@);
    assert(bytes.skip(1) =~= payload);
    lemma_radix_pow_values();
    match value@ {
        ValueView::Int(i) => {
            lemma_le_bytes_len(to_unsigned64(i), 8);
            lemma_le_value_of_le_bytes(to_unsigned64(i), 8);
        },
        ValueView::Float(bits) => {
            lemma_le_bytes_len(bits as nat, 8);
            lemma_le_value_of_le_bytes(bits as nat, 8);
        },
        ValueView::Bool(b) => {},
        ValueView::Str(s) => {
            let text = encode_utf8(s);
            lemma_le_bytes_len(text.len(), 4);
            lemma_le_value_of_le_bytes(text.len(), 4);
            assert(payload.take(4) =~= le_bytes(text.len(), 4));
            assert(payload.skip(4) =~= text);
            encode_utf8_valid_utf8(s);
            encode_utf8_decode_utf8(s);
        },
        ValueView::Char(c) => {},
    }
}

impl From<Value> for Vec<u8> {
    /// The canonical encoding of the value.
    fn from(value: Value) -> (bytes: Vec<u8>)
        ensures
            bytes@ == encode_spec(value@),
    {
        encode(&value)
    }
}

impl FromSpecImpl<Value> for Vec<u8> {
    open spec fn obeys_from_spec() -> bool {
        false
    }

    open spec fn from_spec(v: Value) -> Vec<u8> {
        arbitrary()
    }
}

impl TryFrom<Vec<u8>> for Value {
    type Error = ValueError;

    /// Decodes a buffer that holds exactly one encoded value.
    fn try_from(value: Vec<u8>) -> (result: Result<Self, Self::Error>)
        ensures
            decoded_as(result, decode_spec(value@)),
            result is Ok <==> well_framed(value@),
            value@.len() == 0 ==> result matches Err(ValueError::NoTag),
            result matches Ok(Value::Str(text)) ==> (valid_utf8(value@.skip(5))
                || text@.contains(REPLACEMENT_CHARACTER)),
    {
        decode(value.as_slice())
    }
}

impl TryFromSpecImpl<Vec<u8>> for Value {
    open spec fn obeys_try_from_spec() -> bool {
        false
    }

    open spec fn try_from_spec(v: Vec<u8>) -> Result<Self, Self::Error> {
        arbitrary()
    }
}

} // verus!
