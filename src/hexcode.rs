//! Lowercase hexadecimal text for the binary values that cross the boundary.

use vstd::prelude::*;

verus! {

/// The lowercase hexadecimal digit for a value below sixteen.
pub open spec fn hex_digit(v: nat) -> char {
    if v < 10 {
        ((v + 48) as u8) as char
    } else {
        ((v + 87) as u8) as char
    }
}

/// Two lowercase hexadecimal digits for each byte, high nibble first.
pub open spec fn hex_of(bytes: Seq<u8>) -> Seq<char>
    decreases bytes.len(),
{
    if bytes.len() == 0 {
        Seq::empty()
    } else {
        seq![hex_digit(bytes[0] as nat / 16), hex_digit(bytes[0] as nat % 16)] + hex_of(
            bytes.drop_first(),
        )
    }
}

/// Whether a character is a hexadecimal digit, in either case.
pub open spec fn is_hex_char(c: char) -> bool {
    ('0' <= c && c <= '9') || ('a' <= c && c <= 'f') || ('A' <= c && c <= 'F')
}

/// The value of a hexadecimal digit.
pub open spec fn hex_char_value(c: char) -> nat {
    if '0' <= c && c <= '9' {
        (c as nat - 48) as nat
    } else if 'a' <= c && c <= 'f' {
        (c as nat - 87) as nat
    } else {
        (c as nat - 55) as nat
    }
}

/// Whether text is an even number of hexadecimal digits.
pub open spec fn is_hex_text(s: Seq<char>) -> bool {
    s.len() % 2 == 0 && forall|i: int| 0 <= i < s.len() ==> is_hex_char(#[trigger] s[i])
}

/// The bytes that hexadecimal text stands for, two digits to a byte.
pub open spec fn hex_value(s: Seq<char>) -> Seq<u8>
    decreases s.len(),
{
    if s.len() < 2 {
        Seq::empty()
    } else {
        seq![(hex_char_value(s[0]) * 16 + hex_char_value(s[1])) as u8] + hex_value(
            s.subrange(2, s.len() as int),
        )
    }
}

/// Relies on `hex::encode`: two lowercase digits for each byte, high nibble
/// first.
#[verifier::external_body]
pub fn bytes_to_hex(bytes: &[u8]) -> (r: String)
    ensures
        r@ == hex_of(bytes@),
{
    hex::encode(bytes)
}

/// Relies on `hex::decode`: it succeeds exactly on an even number of
/// hexadecimal digits of either case, and gives the bytes they stand for.
#[verifier::external_body]
pub fn hex_to_bytes(text: &str) -> (r: Option<Vec<u8>>)
    ensures
        r.is_some() == is_hex_text(text@),
        r.is_some() ==> r.unwrap()@ == hex_value(text@),
{
    hex::decode(text).ok()
}

/// Hexadecimal text is twice as long as the bytes it encodes, and is ASCII.
pub proof fn lemma_hex_of_shape(bytes: Seq<u8>)
    ensures
        hex_of(bytes).len() == 2 * bytes.len(),
        vstd::utf8::is_ascii_chars(hex_of(bytes)),
        is_hex_text(hex_of(bytes)),
        vstd::utf8::encode_utf8(hex_of(bytes)).len() == 2 * bytes.len(),
    decreases bytes.len(),
{
    lemma_hex_chars(bytes);
    vstd::utf8::is_ascii_chars_encode_utf8(hex_of(bytes));
}

proof fn lemma_hex_chars(bytes: Seq<u8>)
    ensures
        hex_of(bytes).len() == 2 * bytes.len(),
        vstd::utf8::is_ascii_chars(hex_of(bytes)),
        is_hex_text(hex_of(bytes)),
    decreases bytes.len(),
{
    if bytes.len() > 0 {
        lemma_hex_chars(bytes.drop_first());
        let head = seq![hex_digit(bytes[0] as nat / 16), hex_digit(bytes[0] as nat % 16)];
        let tail = hex_of(bytes.drop_first());
        assert(hex_of(bytes) == head + tail);
        assert forall|i: int| 0 <= i < hex_of(bytes).len() implies '\0' <= #[trigger] hex_of(
            bytes,
        )[i] <= '\u{7f}' && is_hex_char(hex_of(bytes)[i]) by {
            if i >= 2 {
                assert(hex_of(bytes)[i] == tail[i - 2]);
            }
        }
    }
}

/// Decoding the lowercase hexadecimal text of some bytes gives those bytes back.
pub proof fn lemma_hex_round_trip(bytes: Seq<u8>)
    ensures
        is_hex_text(hex_of(bytes)),
        hex_value(hex_of(bytes)) == bytes,
    decreases bytes.len(),
{
    lemma_hex_of_shape(bytes);
    if bytes.len() > 0 {
        lemma_hex_round_trip(bytes.drop_first());
        let h = hex_of(bytes);
        let b = bytes[0] as nat;
        assert(h.subrange(2, h.len() as int) =~= hex_of(bytes.drop_first()));
        assert(hex_char_value(hex_digit(b / 16)) == b / 16);
        assert(hex_char_value(hex_digit(b % 16)) == b % 16);
        assert(hex_value(h) =~= bytes);
    } else {
        assert(hex_value(hex_of(bytes)) =~= bytes);
    }
}

} // verus!
