//! Hexadecimal text: the digits, the numbers that runs of digits denote, and
//! the decoding of a whole run into bytes.
use hex::FromHex;
use vstd::prelude::*;
use vstd::string::*;

verus! {

/// `c` is one of `0-9`, `a-f` or `A-F`.
pub open spec fn is_hex_digit(c: char) -> bool {
    ('0' <= c && c <= '9') || ('a' <= c && c <= 'f') || ('A' <= c && c <= 'F')
}

/// The value of a hexadecimal digit (meaningful only where `is_hex_digit(c)`).
pub open spec fn digit_value(c: char) -> nat {
    if '0' <= c && c <= '9' {
        (c as nat - '0' as nat) as nat
    } else if 'a' <= c && c <= 'f' {
        (c as nat - 'a' as nat + 10) as nat
    } else {
        (c as nat - 'A' as nat + 10) as nat
    }
}

/// Every character of `s` in `from..to` is a hexadecimal digit.
pub open spec fn hex_run(s: Seq<char>, from: int, to: int) -> bool {
    forall|i: int| from <= i < to ==> #[trigger] is_hex_digit(s[i])
}

/// The byte written as two digits at `pos`.
pub open spec fn byte_at(s: Seq<char>, pos: int) -> nat {
    digit_value(s[pos]) * 16 + digit_value(s[pos + 1])
}

/// The big-endian 16-bit number written as four digits at `pos`.
pub open spec fn word_at(s: Seq<char>, pos: int) -> nat {
    byte_at(s, pos) * 256 + byte_at(s, pos + 2)
}

/// The bytes written by the digits of `s`, two digits each.
pub open spec fn hex_bytes(s: Seq<char>) -> Seq<u8> {
    Seq::new(s.len() / 2, |i: int| byte_at(s, 2 * i) as u8)
}

/// The upper-case digit for a value below 16.
pub open spec fn digit_char(v: nat) -> char {
    if v < 10 {
        ('0' as nat + v) as char
    } else {
        ('A' as nat + v - 10) as char
    }
}

/// `bytes` written out, two digits per byte, high digit first.
pub open spec fn hex_text(bytes: Seq<u8>) -> Seq<char> {
    Seq::new(
        2 * bytes.len(),
        |i: int|
            if i % 2 == 0 {
                digit_char(bytes[i / 2] as nat / 16)
            } else {
                digit_char(bytes[i / 2] as nat % 16)
            },
    )
}

/// A digit written by `digit_char` reads back as its value.
pub proof fn lemma_digit_char(v: nat)
    requires
        v < 16,
    ensures
        is_hex_digit(digit_char(v)),
        digit_value(digit_char(v)) == v,
{
}

/// Each pair of digits of `hex_text(bytes)` reads back as its byte.
pub proof fn lemma_hex_text(bytes: Seq<u8>, k: int)
    requires
        0 <= k < bytes.len(),
    ensures
        is_hex_digit(hex_text(bytes)[2 * k]),
        is_hex_digit(hex_text(bytes)[2 * k + 1]),
        byte_at(hex_text(bytes), 2 * k) == bytes[k],
{
    let b = bytes[k] as nat;
    lemma_digit_char(b / 16);
    lemma_digit_char(b % 16);
    assert((2 * k) / 2 == k && (2 * k) % 2 == 0);
    assert((2 * k + 1) / 2 == k && (2 * k + 1) % 2 == 1);
}

/// The value of a single hexadecimal digit, if `c` is one.
pub fn digit_from_hex(c: char) -> (r: Option<u8>)
    ensures
        r is Some <==> is_hex_digit(c),
        r is Some ==> r->0 as nat == digit_value(c) && r->0 < 16,
{
    if '0' <= c && c <= '9' {
        Some((c as u32 - '0' as u32) as u8)
    } else if 'a' <= c && c <= 'f' {
        Some((c as u32 - 'a' as u32 + 10) as u8)
    } else if 'A' <= c && c <= 'F' {
        Some((c as u32 - 'A' as u32 + 10) as u8)
    } else {
        None
    }
}

/// The byte written by the two digits `hi` and `lo`, if both are digits.
pub fn u8_from_hex(hi: char, lo: char) -> (r: Option<u8>)
    ensures
        r is Some <==> is_hex_digit(hi) && is_hex_digit(lo),
        r is Some ==> r->0 as nat == digit_value(hi) * 16 + digit_value(lo),
{
    match (digit_from_hex(hi), digit_from_hex(lo)) {
        (Some(h), Some(l)) => Some(h * 16 + l),
        _ => None,
    }
}

/// The byte written as two digits at `pos` of `input`.
pub fn parse_u8(input: &str, pos: usize) -> (r: Option<u8>)
    requires
        pos + 2 <= input@.len() <= usize::MAX,
    ensures
        r is Some <==> hex_run(input@, pos as int, pos + 2),
        r is Some ==> r->0 as nat == byte_at(input@, pos as int),
{
    let r = u8_from_hex(input.get_char(pos), input.get_char(pos + 1));
    assert(hex_run(input@, pos as int, pos + 2) <==> is_hex_digit(input@[pos as int])
        && is_hex_digit(input@[pos + 1]));
    r
}

/// The big-endian 16-bit number written as four digits at `pos` of `input`.
pub fn parse_u16(input: &str, pos: usize) -> (r: Option<u16>)
    requires
        pos + 4 <= input@.len() <= usize::MAX,
    ensures
        r is Some <==> hex_run(input@, pos as int, pos + 4),
        r is Some ==> r->0 as nat == word_at(input@, pos as int),
{
    match (parse_u8(input, pos), parse_u8(input, pos + 2)) {
        (Some(hi), Some(lo)) => Some(hi as u16 * 256 + lo as u16),
        (hi, lo) => {
            assert(!hex_run(input@, pos as int, pos + 4)) by {
                if hi is None {
                    let i = choose|i: int| pos <= i < pos + 2 && !is_hex_digit(input@[i]);
                } else {
                    let i = choose|i: int| pos + 2 <= i < pos + 4 && !is_hex_digit(input@[i]);
                }
            }
            None
        },
    }
}

#[verifier::external_type_specification]
#[verifier::external_body]
pub struct ExFromHexError(hex::FromHexError);

/// Relies on `<Vec<u8> as hex::FromHex>::from_hex`: it fails on an odd number of
/// bytes or on any byte that is not one of `0-9`, `a-f`, `A-F` (UTF-8 bytes of
/// other characters never are), and otherwise turns each pair of digits, high
/// digit first, into one byte.
#[verifier::external_body]
fn decode_hex(s: &str) -> (r: Result<Vec<u8>, hex::FromHexError>)
    ensures
        r.is_ok() == (s@.len() % 2 == 0 && hex_run(s@, 0, s@.len() as int)),
        r.is_ok() ==> r.unwrap()@ == hex_bytes(s@),
{
    Vec::<u8>::from_hex(s)
}

/// The bytes written by the digits of `s`, if `s` holds only digits, two for
/// each byte.
pub fn bytes_from_hex(s: &str) -> (r: Option<Vec<u8>>)
    ensures
        r is Some <==> s@.len() % 2 == 0 && hex_run(s@, 0, s@.len() as int),
        r is Some ==> r->0@ == hex_bytes(s@),
{
    match decode_hex(s) {
        Ok(v) => Some(v),
        Err(_) => None,
    }
}

} // verus!
