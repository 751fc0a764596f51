//! Checksums as hexadecimal text.
use vstd::prelude::*;
use vstd::string::*;

use crate::error::YvmError;

verus! {

#[verifier::external_type_specification]
#[verifier::external_body]
pub struct ExFromHexError(hex::FromHexError);

/// The value of a hexadecimal digit, in either case.
pub open spec fn hex_value(c: char) -> Option<u8> {
    let n = c as u32;
    if 48 <= n <= 57 {
        Some((n - 48) as u8)
    } else if 97 <= n <= 102 {
        Some((n - 87) as u8)
    } else if 65 <= n <= 70 {
        Some((n - 55) as u8)
    } else {
        None
    }
}

/// The lowercase hexadecimal digit for `d < 16`.
pub open spec fn hex_digit(d: nat) -> char {
    if d < 10 {
        ((d + 48) as u8) as char
    } else {
        ((d + 87) as u8) as char
    }
}

/// Lowercase hexadecimal text of bytes: two digits per byte, high digit first.
pub open spec fn hex_text(b: Seq<u8>) -> Seq<char>
    decreases b.len(),
{
    if b.len() == 0 {
        Seq::empty()
    } else {
        let last = b.last();
        hex_text(b.drop_last()) + seq![hex_digit(last as nat / 16), hex_digit(last as nat % 16)]
    }
}

/// The bytes that hexadecimal text stands for: `None` unless it is an even
/// number of hexadecimal digits.
pub open spec fn hex_bytes(s: Seq<char>) -> Option<Seq<u8>>
    decreases s.len(),
{
    if s.len() == 0 {
        Some(Seq::empty())
    } else if s.len() == 1 {
        None
    } else {
        match (hex_value(s[s.len() - 2]), hex_value(s[s.len() - 1]), hex_bytes(s.subrange(0, s.len() - 2))) {
            (Some(h), Some(l), Some(p)) => Some(p.push((h * 16 + l) as u8)),
            _ => None,
        }
    }
}

/// The text without its leading `0x`, if it has one.
pub open spec fn strip_hex_prefix(s: Seq<char>) -> Seq<char> {
    if s.len() >= 2 && s[0] == '0' && s[1] == 'x' {
        s.subrange(2, s.len() as int)
    } else {
        s
    }
}

/// The checksum that a catalog's text stands for.
pub open spec fn checksum_bytes(s: Seq<char>) -> Option<Seq<u8>> {
    hex_bytes(strip_hex_prefix(s))
}

/// Relies on hex::decode: upper- or lowercase digits, two per byte; any other
/// character, or an odd count, is an error.
#[verifier::external_body]
fn hex_decode(s: &str) -> (r: Result<Vec<u8>, hex::FromHexError>)
    ensures
        match hex_bytes(s@) {
            Some(b) => r is Ok && r->Ok_0@ == b,
            None => r is Err,
        },
{
    hex::decode(s)
}

/// Relies on hex::encode: two lowercase digits per byte.
#[verifier::external_body]
fn hex_encode(b: &Vec<u8>) -> (r: String)
    ensures
        r@ == hex_text(b@),
{
    hex::encode(b)
}

/// Decodes a checksum, with or without one leading `0x`.
pub fn deserialize(text: &str) -> (r: Result<Vec<u8>, YvmError>)
    ensures
        match checksum_bytes(text@) {
            Some(b) => r is Ok && r->Ok_0@ == b,
            None => r matches Err(YvmError::InvalidChecksum),
        },
{
    let len = text.unicode_len();
    let start: usize = if len >= 2 && text.get_char(0) == '0' && text.get_char(1) == 'x' {
        2
    } else {
        0
    };
    let digits = text.substring_char(start, len);
    assert(digits@ =~= strip_hex_prefix(text@));
    match hex_decode(digits) {
        Ok(b) => Ok(b),
        Err(_) => Err(YvmError::InvalidChecksum),
    }
}

/// Encodes a checksum as lowercase hexadecimal text, without a prefix.
pub fn serialize(value: &Vec<u8>) -> (r: String)
    ensures
        r@ == hex_text(value@),
{
    hex_encode(value)
}

proof fn lemma_hex_text_digits(b: Seq<u8>)
    ensures
        hex_text(b).len() == 2 * b.len(),
        forall|i: int| 0 <= i < hex_text(b).len() ==> #[trigger] hex_value(hex_text(b)[i]) is Some
            && hex_text(b)[i] != 'x',
    decreases b.len(),
{
    if b.len() > 0 {
        lemma_hex_text_digits(b.drop_last());
    }
}

proof fn lemma_hex_bytes_of_text(b: Seq<u8>)
    ensures
        hex_bytes(hex_text(b)) == Some(b),
    decreases b.len(),
{
    if b.len() > 0 {
        let s = hex_text(b);
        let last = b.last();
        lemma_hex_bytes_of_text(b.drop_last());
        lemma_hex_text_digits(b.drop_last());
        assert(s.subrange(0, s.len() - 2) =~= hex_text(b.drop_last()));
        let h = last as nat / 16;
        let l = last as nat % 16;
        assert(hex_value(hex_digit(h)) == Some(h as u8));
        assert(hex_value(hex_digit(l)) == Some(l as u8));
        assert((h * 16 + l) as u8 == last);
        assert(b.drop_last().push(last) =~= b);
    }
}

/// Encoding bytes and decoding the text gives back the same bytes.
pub proof fn lemma_checksum_round_trip(b: Seq<u8>)
    ensures
        checksum_bytes(hex_text(b)) == Some(b),
{
    lemma_hex_text_digits(b);
    if hex_text(b).len() >= 2 {
        assert(hex_value(hex_text(b)[1]) is Some);
    }
    lemma_hex_bytes_of_text(b);
}

/// Hexadecimal digits decode to the same bytes with a leading `0x` as
/// without one.
pub proof fn lemma_checksum_prefix_optional(s: Seq<char>)
    requires
        forall|i: int| 0 <= i < s.len() ==> #[trigger] hex_value(s[i]) is Some,
    ensures
        checksum_bytes(seq!['0', 'x'] + s) == checksum_bytes(s),
        checksum_bytes(s) == hex_bytes(s),
{
    let t = seq!['0', 'x'] + s;
    assert(t.subrange(2, t.len() as int) =~= s);
    if s.len() >= 2 {
        assert(hex_value(s[1]) is Some);
    }
}

} // verus!
