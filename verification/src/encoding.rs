//! Lowercase hexadecimal text for digests.

use vstd::prelude::*;

verus! {

/// The lowercase hexadecimal digit for a value from 0 to 15.
pub open spec fn hex_digit(nibble: int) -> char {
    if nibble == 0 {
        '0'
    } else if nibble == 1 {
        '1'
    } else if nibble == 2 {
        '2'
    } else if nibble == 3 {
        '3'
    } else if nibble == 4 {
        '4'
    } else if nibble == 5 {
        '5'
    } else if nibble == 6 {
        '6'
    } else if nibble == 7 {
        '7'
    } else if nibble == 8 {
        '8'
    } else if nibble == 9 {
        '9'
    } else if nibble == 10 {
        'a'
    } else if nibble == 11 {
        'b'
    } else if nibble == 12 {
        'c'
    } else if nibble == 13 {
        'd'
    } else if nibble == 14 {
        'e'
    } else {
        'f'
    }
}

/// The character at position `at` of the hexadecimal text of `bytes`: the
/// high half of a byte at even positions, the low half at odd ones.
pub open spec fn hex_char_at(bytes: Seq<u8>, at: int) -> char {
    if at % 2 == 0 {
        hex_digit(bytes[at / 2] as int / 16)
    } else {
        hex_digit(bytes[at / 2] as int % 16)
    }
}

/// The hexadecimal text of `bytes`: two lowercase digits per byte, high half
/// first, bytes in order.
pub open spec fn hex_text(bytes: Seq<u8>) -> Seq<char> {
    Seq::new(2 * bytes.len(), |at: int| hex_char_at(bytes, at))
}

/// Whether `c` is one of the sixteen lowercase hexadecimal digits.
pub open spec fn is_lower_hex(c: char) -> bool {
    ('0' <= c && c <= '9') || ('a' <= c && c <= 'f')
}

/// `hex::encode` on a byte slice: the result is the lowercase hexadecimal
/// text of the bytes, two digits for each, in order.
#[verifier::external_body]
fn hex_encode(bytes: &[u8]) -> (text: String)
    ensures
        text@ == hex_text(bytes@),
{
    hex::encode(bytes)
}

/// Renders a digest as the text a caller receives: lowercase hexadecimal,
/// twice as many characters as the digest has bytes.
pub fn digest_text(digest: &[u8]) -> (text: String)
    ensures
        text@ == hex_text(digest@),
        text@.len() == 2 * digest@.len(),
        forall|at: int| 0 <= at < text@.len() ==> is_lower_hex(#[trigger] text@[at]),
{
    let text = hex_encode(digest);
    proof {
        lemma_hex_text_is_lower_hex(digest@);
    }
    text
}

/// Hexadecimal text is twice as long as its bytes and holds lowercase
/// hexadecimal digits only.
pub proof fn lemma_hex_text_is_lower_hex(bytes: Seq<u8>)
    ensures
        hex_text(bytes).len() == 2 * bytes.len(),
        forall|at: int| 0 <= at < hex_text(bytes).len() ==> is_lower_hex(#[trigger] hex_text(bytes)[at]),
{
    assert forall|at: int| 0 <= at < hex_text(bytes).len() implies is_lower_hex(
        #[trigger] hex_text(bytes)[at],
    ) by {
        let byte = bytes[at / 2] as int;
        assert(0 <= byte / 16 < 16);
        assert(0 <= byte % 16 < 16);
    }
}

} // verus!
