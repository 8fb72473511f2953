//! Hexadecimal text to bytes and back.
//!
//! The conversions themselves are done by the `hex` crate. Text is modelled
//! by its UTF-8 bytes, which is what `hex` reads.

use vstd::prelude::*;
use vstd::string::*;
use vstd::utf8::*;

verus! {

/// An ASCII hexadecimal digit: `0`-`9`, `A`-`F` or `a`-`f`.
pub open spec fn is_hex_digit(b: u8) -> bool {
    ||| 0x30 <= b <= 0x39
    ||| 0x41 <= b <= 0x46
    ||| 0x61 <= b <= 0x66
}

/// The number, from 0 to 15, that a hexadecimal digit stands for.
pub open spec fn hex_digit_value(b: u8) -> int
    recommends
        is_hex_digit(b),
{
    if 0x30 <= b <= 0x39 {
        b - 0x30
    } else if 0x41 <= b <= 0x46 {
        b - 0x41 + 10
    } else {
        b - 0x61 + 10
    }
}

/// The lower-case hexadecimal digit for a number from 0 to 15.
pub open spec fn lower_hex_digit(n: int) -> u8
    recommends
        0 <= n < 16,
{
    if n < 10 {
        (0x30 + n) as u8
    } else {
        (0x61 + n - 10) as u8
    }
}

/// Text that decodes: an even number of bytes, each a hexadecimal digit.
pub open spec fn is_hex(text: Seq<u8>) -> bool {
    &&& text.len() % 2 == 0
    &&& forall|i: int| 0 <= i < text.len() ==> is_hex_digit(#[trigger] text[i])
}

/// Position `k` holds the first byte of `text` that is no hexadecimal digit.
pub open spec fn is_first_non_hex(text: Seq<u8>, k: int) -> bool {
    &&& 0 <= k < text.len()
    &&& !is_hex_digit(text[k])
    &&& forall|j: int| 0 <= j < k ==> is_hex_digit(#[trigger] text[j])
}

/// The bytes that hexadecimal text stands for: each pair of digits gives one
/// byte, the first digit of the pair being the high half.
pub open spec fn hex_decoded(text: Seq<u8>) -> Seq<u8>
    recommends
        is_hex(text),
{
    Seq::new(
        text.len() / 2,
        |i: int| (16 * hex_digit_value(text[2 * i]) + hex_digit_value(text[2 * i + 1])) as u8,
    )
}

/// The lower-case hexadecimal text for `data`: two digits per byte, high half
/// first.
pub open spec fn hex_encoded(data: Seq<u8>) -> Seq<char> {
    Seq::new(
        2 * data.len(),
        |i: int|
            lower_hex_digit(
                if i % 2 == 0 {
                    (data[i / 2] / 16) as int
                } else {
                    (data[i / 2] % 16) as int
                },
            ) as char,
    )
}

/// The error type of the `hex` crate, with its three variants in view.
#[verifier::external_type_specification]
pub struct ExFromHexError(hex::FromHexError);

/// The error that `hex::decode` gives for `text` that does not decode. It
/// never gives `InvalidStringLength`, which is for output of a fixed size.
pub open spec fn decode_failure(text: Seq<u8>, e: hex::FromHexError) -> bool {
    match e {
        hex::FromHexError::OddLength => text.len() % 2 != 0,
        hex::FromHexError::InvalidHexCharacter { c, index } => {
            &&& text.len() % 2 == 0
            &&& is_first_non_hex(text, index as int)
            &&& c == text[index as int] as char
        },
        hex::FromHexError::InvalidStringLength => false,
    }
}

/// Calls `hex::decode` on the text.
///
/// Trusted: `hex` reads the text's bytes. With an odd number of them it
/// reports `OddLength`. Otherwise it goes through them pair by pair, left to
/// right, and stops at the first byte that is no hexadecimal digit, which it
/// reports with its position, the byte widened to a `char`. If there is none
/// it returns one byte per pair, sixteen times the first digit's value plus
/// the second's.
#[verifier::external_body]
fn hex_decode(text: &str) -> (r: Result<Vec<u8>, hex::FromHexError>)
    ensures
        match r {
            Ok(data) => is_hex(text.spec_bytes()) && data@ == hex_decoded(text.spec_bytes()),
            Err(e) => decode_failure(text.spec_bytes(), e),
        },
{
    hex::decode(text)
}

/// Calls `hex::encode` on the bytes.
///
/// Trusted: for each byte in turn `hex` appends the digit of its high half,
/// then that of its low half, both taken from `0123456789abcdef`.
#[verifier::external_body]
fn hex_encode(data: &[u8]) -> (r: String)
    ensures
        r@ == hex_encoded(data@),
{
    hex::encode(data)
}

/// Why a text is no hexadecimal encoding.
#[derive(Debug, Clone, Copy, PartialEq, Eq)]
pub enum DecodeError {
    /// The text has an odd number of bytes.
    OddLength,
    /// The byte at `index` is the first that is no hexadecimal digit; `c` is
    /// that byte as a character.
    InvalidCharacter { c: char, index: usize },
}

/// The error that `decode_hex` owes for `text` that does not decode.
pub open spec fn decode_error(text: Seq<u8>, e: DecodeError) -> bool {
    match e {
        DecodeError::OddLength => text.len() % 2 != 0,
        DecodeError::InvalidCharacter { c, index } => {
            &&& text.len() % 2 == 0
            &&& is_first_non_hex(text, index as int)
            &&& c == text[index as int] as char
        },
    }
}

/// Decodes hexadecimal text, upper or lower case, into bytes. Text of odd
/// length is refused as such; other text is refused for the first byte in it
/// that is no hexadecimal digit.
pub fn decode_hex(hex_str: &str) -> (r: Result<Vec<u8>, DecodeError>)
    ensures
        r is Ok <==> is_hex(hex_str.spec_bytes()),
        match r {
            Ok(data) => data@ == hex_decoded(hex_str.spec_bytes()),
            Err(e) => decode_error(hex_str.spec_bytes(), e),
        },
{
    match hex_decode(hex_str) {
        Ok(data) => Ok(data),
        Err(hex::FromHexError::InvalidHexCharacter { c, index }) => Err(
            DecodeError::InvalidCharacter { c, index },
        ),
        Err(_) => Err(DecodeError::OddLength),
    }
}

/// Decodes hexadecimal text into bytes, reporting a failure as `hex` does.
pub fn hex_to_bytes(hex: &str) -> (r: Result<Vec<u8>, hex::FromHexError>)
    ensures
        r is Ok <==> is_hex(hex.spec_bytes()),
        match r {
            Ok(data) => data@ == hex_decoded(hex.spec_bytes()),
            Err(e) => decode_failure(hex.spec_bytes(), e),
        },
{
    hex_decode(hex)
}

/// Encodes bytes as lower-case hexadecimal text, two digits per byte.
pub fn bytes_to_hex(bytes: &[u8]) -> (r: String)
    ensures
        r@ == hex_encoded(bytes@),
{
    hex_encode(bytes)
}

/// The lower-case form of an ASCII letter; any other byte is left as it is.
pub open spec fn ascii_lower(b: u8) -> u8 {
    if 0x41 <= b <= 0x5a {
        (b + 0x20) as u8
    } else {
        b
    }
}

/// The text that `bytes_to_hex` writes is plain ASCII: its UTF-8 bytes are its
/// characters, one byte each, and every one of them is a hexadecimal digit.
pub proof fn lemma_encoded_text_bytes(data: Seq<u8>)
    ensures
        encode_utf8(hex_encoded(data)).len() == 2 * data.len(),
        forall|i: int|
            0 <= i < 2 * data.len() ==> #[trigger] encode_utf8(hex_encoded(data))[i]
                == hex_encoded(data)[i] as u8,
        is_hex(encode_utf8(hex_encoded(data))),
{
    let chars = hex_encoded(data);
    assert(is_ascii_chars(chars));
    is_ascii_chars_encode_utf8(chars);
}

/// Decoding the text that `bytes_to_hex` writes for `data` succeeds and gives
/// `data` back.
pub proof fn lemma_decode_of_encode(data: Seq<u8>)
    ensures
        is_hex(encode_utf8(hex_encoded(data))),
        hex_decoded(encode_utf8(hex_encoded(data))) == data,
{
    lemma_encoded_text_bytes(data);
    let text = encode_utf8(hex_encoded(data));
    assert forall|i: int| 0 <= i < data.len() implies #[trigger] hex_decoded(text)[i]
        == data[i] by {
        assert(text[2 * i] == hex_encoded(data)[2 * i] as u8);
        assert(text[2 * i + 1] == hex_encoded(data)[2 * i + 1] as u8);
    }
    assert(hex_decoded(text) =~= data);
}

/// Encoding the bytes that hexadecimal text decodes to gives the text back in
/// lower case.
pub proof fn lemma_encode_of_decode(text: Seq<u8>)
    requires
        is_hex(text),
    ensures
        encode_utf8(hex_encoded(hex_decoded(text))) == text.map_values(|b: u8| ascii_lower(b)),
{
    let data = hex_decoded(text);
    lemma_encoded_text_bytes(data);
    let back = encode_utf8(hex_encoded(data));
    let lower = text.map_values(|b: u8| ascii_lower(b));
    assert(back.len() == lower.len());
    assert forall|i: int| 0 <= i < text.len() implies back[i] == lower[i] by {
        assert(back[i] == hex_encoded(data)[i] as u8);
        let k = i / 2;
        assert(is_hex_digit(text[2 * k]));
        assert(is_hex_digit(text[2 * k + 1]));
        assert(is_hex_digit(text[i]));
    }
    assert(back =~= lower);
}

} // verus!
