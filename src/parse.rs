use vstd::prelude::*;
use crate::types::{Address, ErrorKind, Signature};
use ethers_core::types::H160;
use std::str::FromStr;

verus! {

/// An ASCII hex digit, either case.
pub open spec fn is_hex_digit(c: char) -> bool {
    ('0' <= c && c <= '9') || ('a' <= c && c <= 'f') || ('A' <= c && c <= 'F')
}

/// The value of a hex digit.
pub open spec fn hex_value(c: char) -> int {
    if '0' <= c && c <= '9' {
        c as int - '0' as int
    } else if 'a' <= c && c <= 'f' {
        c as int - 'a' as int + 10
    } else {
        c as int - 'A' as int + 10
    }
}

/// The bytes that pairs of hex digits stand for, high digit first.
pub open spec fn hex_bytes(digits: Seq<char>) -> Seq<u8> {
    Seq::new(
        digits.len() / 2,
        |i: int| (16 * hex_value(digits[2 * i]) + hex_value(digits[2 * i + 1])) as u8,
    )
}

/// The white space that an address's hex text may hold between digits.
pub open spec fn is_hex_space(c: char) -> bool {
    c == ' ' || c == '\r' || c == '\n' || c == '\t'
}

/// The address that text names: an optional `0x`, then exactly 40 hex digits,
/// with spaces, tabs and line breaks among them ignored.
pub open spec fn address_from_hex(text: Seq<char>) -> Option<Seq<u8>> {
    let body = if text.len() >= 2 && text[0] == '0' && text[1] == 'x' {
        text.subrange(2, text.len() as int)
    } else {
        text
    };
    let digits = body.filter(|c: char| !is_hex_space(c));
    if digits.len() == 40 && forall|i: int| 0 <= i < digits.len() ==> is_hex_digit(digits[i]) {
        Some(hex_bytes(digits))
    } else {
        None
    }
}

/// The signature that text names: an optional `0x` or `0X`, then exactly 130
/// hex digits for `r`, `s` and a final `v` byte.
pub open spec fn signature_from_hex(text: Seq<char>) -> Option<(Seq<u8>, Seq<u8>, u64)> {
    let body = if text.len() >= 2 && text[0] == '0' && (text[1] == 'x' || text[1] == 'X') {
        text.subrange(2, text.len() as int)
    } else {
        text
    };
    if body.len() == 130 && forall|i: int| 0 <= i < body.len() ==> is_hex_digit(body[i]) {
        let b = hex_bytes(body);
        Some((b.subrange(0, 32), b.subrange(32, 64), b[64] as u64))
    } else {
        None
    }
}

/// Relies on `FromStr` for ethers_core's `Address` (fixed-hash over rustc-hex):
/// an optional `0x` and 40 hex digits, ASCII white space skipped.
#[verifier::external_body]
fn address_from_text(text: &str) -> (r: Option<Address>)
    ensures
        match r {
            Some(a) => address_from_hex(text@) == Some(a@),
            None => address_from_hex(text@) is None,
        },
{
    H160::from_str(text).ok().map(|a| Address { bytes: a.0 })
}

/// Relies on `FromStr` for ethers_core's `Signature`: hex-decoded by
/// const-hex (an optional `0x` or `0X` prefix), then 65 bytes split into `r`,
/// `s` and `v`.
#[verifier::external_body]
fn signature_from_text(text: &str) -> (r: Option<Signature>)
    ensures
        match r {
            Some(s) => signature_from_hex(text@) == Some((s.r@, s.s@, s.v)),
            None => signature_from_hex(text@) is None,
        },
{
    let sig = ethers_core::types::Signature::from_str(text).ok()?;
    let (mut r, mut s) = ([0u8; 32], [0u8; 32]);
    sig.r.to_big_endian(&mut r);
    sig.s.to_big_endian(&mut s);
    Some(Signature { r, s, v: sig.v })
}

/// Reads an address from hex text.
pub fn parse_address(text: &str) -> (r: Result<Address, ErrorKind>)
    ensures
        match address_from_hex(text@) {
            Some(b) => r matches Ok(a) && a@ == b,
            None => r matches Err(ErrorKind::InvalidAddress),
        },
{
    match address_from_text(text) {
        Some(a) => Ok(a),
        None => Err(ErrorKind::InvalidAddress),
    }
}

/// Reads a signature from hex text.
pub fn parse_signature(text: &str) -> (r: Result<Signature, ErrorKind>)
    ensures
        match signature_from_hex(text@) {
            Some(t) => r matches Ok(s) && (s.r@, s.s@, s.v) == t,
            None => r matches Err(ErrorKind::InvalidSignature),
        },
{
    match signature_from_text(text) {
        Some(s) => Ok(s),
        None => Err(ErrorKind::InvalidSignature),
    }
}

} // verus!
