//! Lowercase hexadecimal encoding of byte strings.

use vstd::prelude::*;

verus! {

/// The lowercase hexadecimal character of one nibble value (0 through 15).
pub open spec fn hex_digit_char(v: nat) -> char {
    if v == 0 {
        '0'
    } else if v == 1 {
        '1'
    } else if v == 2 {
        '2'
    } else if v == 3 {
        '3'
    } else if v == 4 {
        '4'
    } else if v == 5 {
        '5'
    } else if v == 6 {
        '6'
    } else if v == 7 {
        '7'
    } else if v == 8 {
        '8'
    } else if v == 9 {
        '9'
    } else if v == 10 {
        'a'
    } else if v == 11 {
        'b'
    } else if v == 12 {
        'c'
    } else if v == 13 {
        'd'
    } else if v == 14 {
        'e'
    } else {
        'f'
    }
}

/// A character that may appear in a lowercase hexadecimal string.
pub open spec fn is_hex_lower_char(c: char) -> bool {
    c == '0' || c == '1' || c == '2' || c == '3' || c == '4' || c == '5' || c == '6' || c == '7'
        || c == '8' || c == '9' || c == 'a' || c == 'b' || c == 'c' || c == 'd' || c == 'e'
        || c == 'f'
}

/// The lowercase hexadecimal encoding of a byte string: two characters per
/// byte, high nibble first, bytes in input order.
pub open spec fn hex_lower_seq(b: Seq<u8>) -> Seq<char>
    decreases b.len(),
{
    if b.len() == 0 {
        Seq::empty()
    } else {
        hex_lower_seq(b.drop_last()) + seq![
            hex_digit_char((b.last() / 16) as nat),
            hex_digit_char((b.last() % 16) as nat),
        ]
    }
}

/// A hexadecimal encoding is twice as long as the bytes it encodes.
pub proof fn lemma_hex_lower_seq_len(b: Seq<u8>)
    ensures
        hex_lower_seq(b).len() == 2 * b.len(),
    decreases b.len(),
{
    if b.len() > 0 {
        lemma_hex_lower_seq_len(b.drop_last());
    }
}

/// Every character of a hexadecimal encoding is a lowercase hex character.
pub proof fn lemma_hex_lower_seq_chars(b: Seq<u8>)
    ensures
        forall|i: int|
            0 <= i < hex_lower_seq(b).len() ==> is_hex_lower_char(#[trigger] hex_lower_seq(b)[i]),
    decreases b.len(),
{
    if b.len() > 0 {
        lemma_hex_lower_seq_chars(b.drop_last());
        lemma_hex_lower_seq_len(b.drop_last());
    }
}

/// Relies on hex::encode: each input byte becomes two lowercase hexadecimal
/// digits, high nibble first, in input order.
#[verifier::external_body]
pub(crate) fn hex_lower(data: &[u8]) -> (r: String)
    ensures
        r@ == hex_lower_seq(data@),
{
    hex::encode(data)
}

} // verus!
