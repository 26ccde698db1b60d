use vstd::prelude::*;

use crate::text::same_text;

verus! {

/// What attribute writing reads of a JSON value: the value as a signed and
/// as an unsigned 64-bit integer, and as a string, where it is one.
#[derive(Clone, Debug)]
pub struct JsonScalar {
    pub as_i64: Option<i64>,
    pub as_u64: Option<u64>,
    pub as_str: Option<String>,
}

/// How an integer is written: the narrowest TLV integer type that holds
/// it, unsigned for values from 0 up, signed for negative values.
#[derive(Clone, Copy, Debug, PartialEq, Eq, Structural)]
pub enum IntEncoding {
    U8(u8),
    U16(u16),
    U32(u32),
    U64(u64),
    I8(i8),
    I16(i16),
    I32(i32),
    I64(i64),
}

/// The encoding of `n`, or none when no 64-bit TLV integer holds it.
pub open spec fn encoding_for(n: int) -> Option<IntEncoding> {
    if n >= 0 {
        if n <= u8::MAX {
            Some(IntEncoding::U8(n as u8))
        } else if n <= u16::MAX {
            Some(IntEncoding::U16(n as u16))
        } else if n <= u32::MAX {
            Some(IntEncoding::U32(n as u32))
        } else if n <= u64::MAX {
            Some(IntEncoding::U64(n as u64))
        } else {
            None
        }
    } else if n >= i8::MIN {
        Some(IntEncoding::I8(n as i8))
    } else if n >= i16::MIN {
        Some(IntEncoding::I16(n as i16))
    } else if n >= i32::MIN {
        Some(IntEncoding::I32(n as i32))
    } else if n >= i64::MIN {
        Some(IntEncoding::I64(n as i64))
    } else {
        None
    }
}

/// The number an encoding holds.
pub open spec fn encoded_value(e: IntEncoding) -> int {
    match e {
        IntEncoding::U8(v) => v as int,
        IntEncoding::U16(v) => v as int,
        IntEncoding::U32(v) => v as int,
        IntEncoding::U64(v) => v as int,
        IntEncoding::I8(v) => v as int,
        IntEncoding::I16(v) => v as int,
        IntEncoding::I32(v) => v as int,
        IntEncoding::I64(v) => v as int,
    }
}

/// The number of value bytes an encoding takes.
pub open spec fn encoded_width(e: IntEncoding) -> nat {
    match e {
        IntEncoding::U8(_) | IntEncoding::I8(_) => 1,
        IntEncoding::U16(_) | IntEncoding::I16(_) => 2,
        IntEncoding::U32(_) | IntEncoding::I32(_) => 4,
        IntEncoding::U64(_) | IntEncoding::I64(_) => 8,
    }
}

/// Whether `n` fits `width` bytes, unsigned when `n` is not negative and
/// signed when it is.
pub open spec fn fits(n: int, width: nat) -> bool {
    if n >= 0 {
        n < pow256(width)
    } else {
        n >= -(pow256(width) / 2)
    }
}

/// 256 to the power `i`.
pub open spec fn pow256(i: nat) -> int
    decreases i,
{
    if i == 0 {
        1
    } else {
        256 * pow256((i - 1) as nat)
    }
}

/// The chosen encoding keeps the number and is the narrowest that holds it;
/// numbers outside the 64-bit ranges have none.
pub proof fn encoding_is_exact_and_narrowest(n: int)
    ensures
        encoding_for(n) is Some ==> {
            let e = encoding_for(n)->0;
            &&& encoded_value(e) == n
            &&& fits(n, encoded_width(e))
            &&& encoded_width(e) > 1 ==> !fits(n, encoded_width(e) / 2)
            &&& (n >= 0 <==> (e is U8 || e is U16 || e is U32 || e is U64))
        },
        encoding_for(n) is None <==> !fits(n, 8),
{
    assert(pow256(1) == 256) by {
        reveal_with_fuel(pow256, 2);
    }
    assert(pow256(2) == 65536) by {
        reveal_with_fuel(pow256, 3);
    }
    assert(pow256(4) == 0x1_0000_0000) by {
        reveal_with_fuel(pow256, 5);
    }
    assert(pow256(8) == 0x1_0000_0000_0000_0000) by {
        reveal_with_fuel(pow256, 9);
    }
}

/// Chooses the encoding of a number.
pub fn int_encoding(n: i128) -> (r: Option<IntEncoding>)
    ensures
        r == encoding_for(n as int),
{
    if n >= 0 {
        if n <= 0xFF {
            Some(IntEncoding::U8(n as u8))
        } else if n <= 0xFFFF {
            Some(IntEncoding::U16(n as u16))
        } else if n <= 0xFFFF_FFFF {
            Some(IntEncoding::U32(n as u32))
        } else if n <= 0xFFFF_FFFF_FFFF_FFFF {
            Some(IntEncoding::U64(n as u64))
        } else {
            None
        }
    } else if n >= -0x80 {
        Some(IntEncoding::I8(n as i8))
    } else if n >= -0x8000 {
        Some(IntEncoding::I16(n as i16))
    } else if n >= -0x8000_0000 {
        Some(IntEncoding::I32(n as i32))
    } else if n >= -0x8000_0000_0000_0000 {
        Some(IntEncoding::I64(n as i64))
    } else {
        None
    }
}

/// The little-endian bytes of `v` taken modulo 256 to the power `n`.
pub open spec fn le_bytes(v: int, n: nat) -> Seq<u8> {
    Seq::new(n, |i: int| ((v / pow256(i as nat)) % 256) as u8)
}

/// The TLV element with context tag `tag` for an encoded integer: the
/// control byte of the type, the tag, and the value's bytes (two's
/// complement for the signed types).
pub open spec fn int_element(tag: u8, e: IntEncoding) -> Seq<u8> {
    let ctrl: u8 = match e {
        IntEncoding::I8(_) => 0x20,
        IntEncoding::I16(_) => 0x21,
        IntEncoding::I32(_) => 0x22,
        IntEncoding::I64(_) => 0x23,
        IntEncoding::U8(_) => 0x24,
        IntEncoding::U16(_) => 0x25,
        IntEncoding::U32(_) => 0x26,
        IntEncoding::U64(_) => 0x27,
    };
    let v = encoded_value(e);
    let unsigned = if v < 0 { v + pow256(encoded_width(e)) } else { v };
    seq![ctrl, tag] + le_bytes(unsigned, encoded_width(e))
}

/// The TLV element with context tag `tag` for a UTF-8 string: control byte
/// 0x2C, the tag, the byte length cut to one byte, and the bytes.
pub open spec fn string_element(tag: u8, s: Seq<char>) -> Seq<u8> {
    seq![0x2Cu8, tag, (vstd::utf8::encode_utf8(s).len() % 256) as u8] + vstd::utf8::encode_utf8(s)
}

/// Calls `TlvBuffer::write_uint8` of the Matter library on a new buffer,
/// which writes the control byte, the tag and the value into a vector, and
/// so cannot fail.
#[verifier::external_body]
fn tlv_uint8(tag: u8, value: u8) -> (r: Result<Vec<u8>, String>)
    ensures
        r is Ok && r->Ok_0@ == int_element(tag, IntEncoding::U8(value)),
{
    let mut b = matc::tlv::TlvBuffer::new();
    match b.write_uint8(tag, value) {
        Ok(()) => Ok(b.data),
        Err(e) => Err(e.to_string()),
    }
}

/// Calls `TlvBuffer::write_uint16` of the Matter library on a new buffer:
/// control byte, tag, value in little-endian order; it cannot fail.
#[verifier::external_body]
fn tlv_uint16(tag: u8, value: u16) -> (r: Result<Vec<u8>, String>)
    ensures
        r is Ok && r->Ok_0@ == int_element(tag, IntEncoding::U16(value)),
{
    let mut b = matc::tlv::TlvBuffer::new();
    match b.write_uint16(tag, value) {
        Ok(()) => Ok(b.data),
        Err(e) => Err(e.to_string()),
    }
}

/// Calls `TlvBuffer::write_uint32` of the Matter library on a new buffer:
/// control byte, tag, value in little-endian order; it cannot fail.
#[verifier::external_body]
fn tlv_uint32(tag: u8, value: u32) -> (r: Result<Vec<u8>, String>)
    ensures
        r is Ok && r->Ok_0@ == int_element(tag, IntEncoding::U32(value)),
{
    let mut b = matc::tlv::TlvBuffer::new();
    match b.write_uint32(tag, value) {
        Ok(()) => Ok(b.data),
        Err(e) => Err(e.to_string()),
    }
}

/// Calls `TlvBuffer::write_uint64` of the Matter library on a new buffer:
/// control byte, tag, value in little-endian order; it cannot fail.
#[verifier::external_body]
fn tlv_uint64(tag: u8, value: u64) -> (r: Result<Vec<u8>, String>)
    ensures
        r is Ok && r->Ok_0@ == int_element(tag, IntEncoding::U64(value)),
{
    let mut b = matc::tlv::TlvBuffer::new();
    match b.write_uint64(tag, value) {
        Ok(()) => Ok(b.data),
        Err(e) => Err(e.to_string()),
    }
}

/// Calls `TlvBuffer::write_int8` of the Matter library on a new buffer:
/// control byte, tag, the value's byte; it cannot fail.
#[verifier::external_body]
fn tlv_int8(tag: u8, value: i8) -> (r: Result<Vec<u8>, String>)
    ensures
        r is Ok && r->Ok_0@ == int_element(tag, IntEncoding::I8(value)),
{
    let mut b = matc::tlv::TlvBuffer::new();
    match b.write_int8(tag, value) {
        Ok(()) => Ok(b.data),
        Err(e) => Err(e.to_string()),
    }
}

/// Calls `TlvBuffer::write_int16` of the Matter library on a new buffer:
/// control byte, tag, value in little-endian two's complement; it cannot fail.
#[verifier::external_body]
fn tlv_int16(tag: u8, value: i16) -> (r: Result<Vec<u8>, String>)
    ensures
        r is Ok && r->Ok_0@ == int_element(tag, IntEncoding::I16(value)),
{
    let mut b = matc::tlv::TlvBuffer::new();
    match b.write_int16(tag, value) {
        Ok(()) => Ok(b.data),
        Err(e) => Err(e.to_string()),
    }
}

/// Calls `TlvBuffer::write_int32` of the Matter library on a new buffer:
/// control byte, tag, value in little-endian two's complement; it cannot fail.
#[verifier::external_body]
fn tlv_int32(tag: u8, value: i32) -> (r: Result<Vec<u8>, String>)
    ensures
        r is Ok && r->Ok_0@ == int_element(tag, IntEncoding::I32(value)),
{
    let mut b = matc::tlv::TlvBuffer::new();
    match b.write_int32(tag, value) {
        Ok(()) => Ok(b.data),
        Err(e) => Err(e.to_string()),
    }
}

/// Calls `TlvBuffer::write_int64` of the Matter library on a new buffer:
/// control byte, tag, value in little-endian two's complement; it cannot fail.
#[verifier::external_body]
fn tlv_int64(tag: u8, value: i64) -> (r: Result<Vec<u8>, String>)
    ensures
        r is Ok && r->Ok_0@ == int_element(tag, IntEncoding::I64(value)),
{
    let mut b = matc::tlv::TlvBuffer::new();
    match b.write_int64(tag, value) {
        Ok(()) => Ok(b.data),
        Err(e) => Err(e.to_string()),
    }
}

/// Calls `TlvBuffer::write_string` of the Matter library on a new buffer:
/// control byte 0x2C, the tag, the UTF-8 length as one byte (cut to its
/// low 8 bits) and the UTF-8 bytes; it cannot fail.
#[verifier::external_body]
fn tlv_string(tag: u8, value: &str) -> (r: Result<Vec<u8>, String>)
    ensures
        r is Ok && r->Ok_0@ == string_element(tag, value@),
{
    let mut b = matc::tlv::TlvBuffer::new();
    match b.write_string(tag, value) {
        Ok(()) => Ok(b.data),
        Err(e) => Err(e.to_string()),
    }
}

/// The value of a decimal digit string.
pub open spec fn digits_value(s: Seq<char>) -> nat
    decreases s.len(),
{
    if s.len() == 0 {
        0
    } else {
        digits_value(s.drop_last()) * 10 + (s.last() as nat - '0' as nat) as nat
    }
}

/// The number that `i128::from_str` reads from a text: an optional sign and
/// one or more ASCII digits, within the range of `i128`; none for any other text.
pub open spec fn parsed_i128(s: Seq<char>) -> Option<int> {
    let neg = s.len() > 0 && s[0] == '-';
    let body = if s.len() > 0 && (s[0] == '-' || s[0] == '+') { s.drop_first() } else { s };
    if body.len() == 0 || !(forall|i: int| 0 <= i < body.len() ==> '0' <= #[trigger] body[i] && body[i] <= '9') {
        None
    } else {
        let v: int = if neg { -(digits_value(body) as int) } else { digits_value(body) as int };
        if i128::MIN <= v && v <= i128::MAX {
            Some(v)
        } else {
            None
        }
    }
}

/// Calls `str::parse::<i128>` from std, which the documentation describes
/// as reading an optional `+` or `-` and then only ASCII digits, refusing
/// any other character and values outside the type's range.
#[verifier::external_body]
fn parse_i128(s: &str) -> (r: Option<i128>)
    ensures
        match parsed_i128(s@) {
            Some(v) => r == Some(v as i128),
            None => r is None,
        },
{
    s.parse::<i128>().ok()
}

/// The number that an integer write asks for: the JSON value as a signed
/// 64-bit integer, else as an unsigned one, else a string read as an
/// integer; with the error message otherwise.
pub open spec fn requested_integer(value: JsonScalar) -> Result<int, Seq<char>> {
    match value.as_i64 {
        Some(v) => Ok(v as int),
        None => match value.as_u64 {
            Some(v) => Ok(v as int),
            None => match value.as_str {
                Some(s) => match parsed_i128(s@) {
                    Some(n) => Ok(n),
                    None => Err("invalid integer string"@),
                },
                None => Err("expected integer value"@),
            },
        },
    }
}

/// The payload that writing `value` as `value_type` sends, with tag 2, or
/// the error message: a string as a TLV string, an integer in its narrowest
/// TLV integer type.
pub open spec fn write_payload(value_type: Seq<char>, value: JsonScalar) -> Result<Seq<u8>, Seq<char>> {
    if value_type == "string"@ {
        match value.as_str {
            Some(s) => Ok(string_element(2, s@)),
            None => Err("expected string value"@),
        }
    } else if value_type == "integer"@ {
        match requested_integer(value) {
            Ok(n) => match encoding_for(n) {
                Some(e) => Ok(int_element(2, e)),
                None => Err("integer value out of range"@),
            },
            Err(m) => Err(m),
        }
    } else {
        Err("unsupported value_type: "@ + value_type)
    }
}

fn requested_int_exec(value: &JsonScalar) -> (r: Result<i128, String>)
    ensures
        match requested_integer(*value) {
            Ok(n) => r is Ok && r->Ok_0 as int == n,
            Err(m) => r is Err && r->Err_0@ == m,
        },
{
    match value.as_i64 {
        Some(v) => Ok(v as i128),
        None => match value.as_u64 {
            Some(v) => Ok(v as i128),
            None => match &value.as_str {
                Some(s) => match parse_i128(s.as_str()) {
                    Some(n) => Ok(n),
                    None => Err(String::from_str("invalid integer string")),
                },
                None => Err(String::from_str("expected integer value")),
            },
        },
    }
}

fn encode_int(tag: u8, e: IntEncoding) -> (r: Result<Vec<u8>, String>)
    ensures
        r is Ok && r->Ok_0@ == int_element(tag, e),
{
    match e {
        IntEncoding::U8(v) => tlv_uint8(tag, v),
        IntEncoding::U16(v) => tlv_uint16(tag, v),
        IntEncoding::U32(v) => tlv_uint32(tag, v),
        IntEncoding::U64(v) => tlv_uint64(tag, v),
        IntEncoding::I8(v) => tlv_int8(tag, v),
        IntEncoding::I16(v) => tlv_int16(tag, v),
        IntEncoding::I32(v) => tlv_int32(tag, v),
        IntEncoding::I64(v) => tlv_int64(tag, v),
    }
}

/// Encodes the value of an attribute write: `"string"` takes the JSON
/// string; `"integer"` takes a JSON integer or a string holding one and
/// writes it in the narrowest integer type that holds it; anything else is
/// refused.
pub fn encode_write_value(value_type: &str, value: &JsonScalar) -> (r: Result<Vec<u8>, String>)
    ensures
        match write_payload(value_type@, *value) {
            Ok(bytes) => r is Ok && r->Ok_0@ == bytes,
            Err(m) => r is Err && r->Err_0@ == m,
        },
{
    if same_text(value_type, "string") {
        match &value.as_str {
            Some(s) => tlv_string(2, s.as_str()),
            None => Err(String::from_str("expected string value")),
        }
    } else if same_text(value_type, "integer") {
        let n: i128 = match requested_int_exec(value) {
            Ok(n) => n,
            Err(m) => {
                return Err(m);
            },
        };
        match int_encoding(n) {
            Some(e) => encode_int(2, e),
            None => Err(String::from_str("integer value out of range")),
        }
    } else {
        let mut m: String = String::from_str("unsupported value_type: ");
        m.append(value_type);
        Err(m)
    }
}

} // verus!
