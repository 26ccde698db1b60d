use vstd::prelude::*;

use crate::logging::Level;
use crate::text::{decimal, decimal_text, hex, hex_text};
use crate::tlv::{int_at, item_pretty_text, pretty_text, TlvItem};

verus! {

/// The answer of a device to a command: a status code, or response data
/// shown as text.
#[derive(Debug)]
pub enum InvokeResultDto {
    Status { code: u16 },
    Data { tlv: String },
}

/// Where an invoke response carries the command's status code.
pub open spec fn status_path() -> Seq<u8> {
    seq![1u8, 0u8, 1u8, 1u8, 0u8]
}

/// Turns an invoke response into the answer shown to the user: the status
/// code found at the status path (its low 16 bits), or else the Matter
/// library's multi-line debug rendering of the response.
pub fn format_invoke_result(tlv: &TlvItem) -> (r: InvokeResultDto)
    ensures
        match int_at(tlv.value, status_path()) {
            Some(code) => r == InvokeResultDto::Status { code: (code % 0x10000) as u16 },
            None => r is Data && r->tlv@ == item_pretty_text(*tlv),
        },
{
    let path: Vec<u8> = vec![1u8, 0u8, 1u8, 1u8, 0u8];
    assert(path@ =~= status_path());
    match tlv.get_int(&path) {
        Some(code) => InvokeResultDto::Status { code: (code % 0x10000) as u16 },
        None => InvokeResultDto::Data { tlv: pretty_text(tlv) },
    }
}

/// Where an invoke response carries the cluster-specific status.
pub open spec fn cluster_status_path() -> Seq<u8> {
    seq![1u8, 0u8, 1u8, 1u8, 1u8]
}

/// The statuses of an invoke response, as `parse_im_invoke_resp` of the
/// Matter library reads them: (0, 0) for success; else the common status
/// and the cluster status, each cut to 32 bits; an error when either is missing.
pub open spec fn invoke_statuses(tlv: TlvItem) -> Result<(u32, u32), Seq<char>> {
    match int_at(tlv.value, status_path()) {
        None => Err("parse_im_invoke_resp: status not found"@),
        Some(common) => if common == 0 {
            Ok((0u32, 0u32))
        } else {
            match int_at(tlv.value, cluster_status_path()) {
                None => Err("parse_im_invoke_resp: unexpected response"@),
                Some(stat) => Ok(((common % 0x1_0000_0000) as u32, (stat % 0x1_0000_0000) as u32)),
            }
        },
    }
}

/// Reads the statuses of an invoke response.
pub fn parse_invoke_statuses(tlv: &TlvItem) -> (r: Result<(u32, u32), String>)
    ensures
        match invoke_statuses(*tlv) {
            Ok(p) => r == Ok::<(u32, u32), String>(p),
            Err(m) => r is Err && r->Err_0@ == m,
        },
{
    let path: Vec<u8> = vec![1u8, 0u8, 1u8, 1u8, 0u8];
    assert(path@ =~= status_path());
    let common: u64 = match tlv.get_int(&path) {
        Some(c) => c,
        None => {
            return Err(String::from_str("parse_im_invoke_resp: status not found"));
        },
    };
    if common == 0 {
        return Ok((0, 0));
    }
    let path2: Vec<u8> = vec![1u8, 0u8, 1u8, 1u8, 1u8];
    assert(path2@ =~= cluster_status_path());
    match tlv.get_int(&path2) {
        Some(stat) => Ok(((common % 0x1_0000_0000) as u32, (stat % 0x1_0000_0000) as u32)),
        None => Err(String::from_str("parse_im_invoke_resp: unexpected response")),
    }
}

/// The log line that reports an answer: success for status 0 at level
/// info, failure for any other status at level warn, and a data response
/// at level info.
pub open spec fn result_log_line(tag: Seq<char>, node_id: u64, dto: InvokeResultDto) -> (Level, Seq<char>) {
    let head = tag + ": node="@ + decimal(node_id as nat) + " -> "@;
    match dto {
        InvokeResultDto::Status { code } => if code == 0 {
            (Level::Info, head + "status=0x"@ + hex(code as nat, 4, false) + " SUCCESS"@)
        } else {
            (Level::Warn, head + "status=0x"@ + hex(code as nat, 4, false) + " FAILURE"@)
        },
        InvokeResultDto::Data { .. } => (Level::Info, head + "data response"@),
    }
}

/// The level and text of the log line that reports an answer.
pub fn log_result(tag: &str, node_id: u64, dto: &InvokeResultDto) -> (r: (Level, String))
    ensures
        (r.0, r.1@) == result_log_line(tag@, node_id, *dto),
{
    let mut line: String = String::from_str(tag);
    line.append(": node=");
    let id: String = decimal_text(node_id);
    line.append(id.as_str());
    line.append(" -> ");
    match dto {
        InvokeResultDto::Status { code } => {
            line.append("status=0x");
            let h: String = hex_text(*code as u64, 4, false);
            line.append(h.as_str());
            if *code == 0 {
                line.append(" SUCCESS");
                (Level::Info, line)
            } else {
                line.append(" FAILURE");
                (Level::Warn, line)
            }
        },
        InvokeResultDto::Data { .. } => {
            line.append("data response");
            (Level::Info, line)
        },
    }
}

/// A text with its leading and trailing Unicode white space removed.
pub uninterp spec fn trimmed(s: Seq<char>) -> Seq<char>;

/// Calls `str::trim` from std, which removes leading and trailing
/// characters with the Unicode `White_Space` property. The contract only
/// names the result.
#[verifier::external_body]
fn trim_text(s: &str) -> (r: &str)
    ensures
        r@ == trimmed(s@),
{
    s.trim()
}

/// Whether a character is a hexadecimal digit in either case.
pub open spec fn is_hex_digit(c: char) -> bool {
    ('0' <= c && c <= '9') || ('a' <= c && c <= 'f') || ('A' <= c && c <= 'F')
}

/// The value of a hexadecimal digit.
pub open spec fn hex_value(c: char) -> nat {
    if '0' <= c && c <= '9' {
        (c as nat - '0' as nat) as nat
    } else if 'a' <= c && c <= 'f' {
        (c as nat - 'a' as nat + 10) as nat
    } else {
        (c as nat - 'A' as nat + 10) as nat
    }
}

/// Whether a text is an even number of hexadecimal digits.
pub open spec fn is_hex_text(s: Seq<char>) -> bool {
    s.len() % 2 == 0 && forall|i: int| 0 <= i < s.len() ==> is_hex_digit(#[trigger] s[i])
}

/// The bytes that a hexadecimal text spells, two digits each, high digit first.
pub open spec fn hex_bytes(s: Seq<char>) -> Seq<u8> {
    Seq::new(s.len() / 2, |i: int| (hex_value(s[2 * i]) * 16 + hex_value(s[2 * i + 1])) as u8)
}

/// Whether every character of a text is ASCII.
pub open spec fn all_ascii(s: Seq<char>) -> bool {
    forall|i: int| 0 <= i < s.len() ==> (#[trigger] s[i] as nat) < 128
}

/// The message with which the hex decoder refuses a text.
pub uninterp spec fn hex_error_text(s: Seq<char>) -> Seq<char>;

/// Calls `hex::decode`, which reads an even number of hexadecimal digits of
/// either case into bytes, two digits each, and refuses an odd number of
/// bytes ("Odd number of digits") or any other byte (naming the byte and
/// its position). The contract states the accepted texts and their bytes,
/// and the message for an odd number of ASCII digits; other messages are
/// only named.
#[verifier::external_body]
fn hex_decode(s: &str) -> (r: Result<Vec<u8>, String>)
    ensures
        r is Ok <==> is_hex_text(s@),
        r is Ok ==> r->Ok_0@ == hex_bytes(s@),
        r is Err ==> r->Err_0@ == hex_error_text(s@),
        r is Err && all_ascii(s@) && s@.len() % 2 == 1 ==> r->Err_0@ == "Odd number of digits"@,
{
    hex::decode(s).map_err(|e| e.to_string())
}

/// The command payload that a hexadecimal text gives: nothing for an empty
/// text, else the bytes of the trimmed text.
pub fn payload_bytes(payload_hex: &str) -> (r: Result<Vec<u8>, String>)
    ensures
        payload_hex@.len() == 0 ==> r is Ok && r->Ok_0@.len() == 0,
        payload_hex@.len() != 0 ==> {
            let t = trimmed(payload_hex@);
            &&& r is Ok <==> is_hex_text(t)
            &&& r is Ok ==> r->Ok_0@ == hex_bytes(t)
            &&& r is Err ==> r->Err_0@ == "hex decode: "@ + hex_error_text(t)
        },
{
    if payload_hex.is_empty() {
        return Ok(Vec::new());
    }
    match hex_decode(trim_text(payload_hex)) {
        Ok(b) => Ok(b),
        Err(e) => {
            let mut msg: String = String::from_str("hex decode: ");
            msg.append(e.as_str());
            Err(msg)
        },
    }
}

} // verus!
