//! Lowercase hexadecimal text, as the `hex` crate writes and reads it.

use vstd::prelude::*;
use vstd::string::StringSliceAdditionalSpecFns;

verus! {

/// Why a text is not the hexadecimal form of a byte string.
#[derive(Debug, Clone, Copy, PartialEq, Eq, Structural)]
pub enum HexError {
    /// A byte that is no hexadecimal digit, with its position.
    InvalidHexCharacter { c: char, index: usize },
    /// An odd number of digits.
    OddLength,
    /// The text does not fit a container of fixed size.
    InvalidStringLength,
}

/// The lowercase digit for a value below sixteen.
pub open spec fn hex_digit_char(n: int) -> char {
    if n < 10 {
        (48 + n) as char
    } else {
        (87 + n) as char
    }
}

/// Two lowercase digits per byte, the high half first.
pub open spec fn hex_lower(bytes: Seq<u8>) -> Seq<char> {
    Seq::new(
        2 * bytes.len(),
        |k: int|
            if k % 2 == 0 {
                hex_digit_char(bytes[k / 2] as int / 16)
            } else {
                hex_digit_char(bytes[k / 2] as int % 16)
            },
    )
}

/// The value of a digit `0-9`, `a-f` or `A-F`.
pub open spec fn hex_digit_value(b: u8) -> Option<u8> {
    if 48 <= b <= 57 {
        Some((b - 48) as u8)
    } else if 97 <= b <= 102 {
        Some((b - 87) as u8)
    } else if 65 <= b <= 70 {
        Some((b - 55) as u8)
    } else {
        None
    }
}

pub open spec fn all_hex_digits(data: Seq<u8>) -> bool {
    forall|i: int| 0 <= i < data.len() ==> (#[trigger] hex_digit_value(data[i])) is Some
}

/// The first position of a byte that is no digit.
pub open spec fn first_non_digit(data: Seq<u8>) -> int {
    choose|i: int|
        0 <= i < data.len() && hex_digit_value(data[i]) is None && forall|j: int|
            0 <= j < i ==> (#[trigger] hex_digit_value(data[j])) is Some
}

/// What decoding a hexadecimal text (given as bytes) yields: an odd length
/// is refused first, then the first byte that is no digit.
pub open spec fn hex_decode_spec(data: Seq<u8>) -> Result<Seq<u8>, HexError> {
    if data.len() % 2 != 0 {
        Err(HexError::OddLength)
    } else if !all_hex_digits(data) {
        let i = first_non_digit(data);
        Err(HexError::InvalidHexCharacter { c: data[i] as char, index: i as usize })
    } else {
        Ok(
            Seq::new(
                data.len() / 2,
                |k: int|
                    (hex_digit_value(data[2 * k])->0 * 16 + hex_digit_value(
                        data[2 * k + 1],
                    )->0) as u8,
            ),
        )
    }
}

/// Calls `hex::encode`, which writes each byte as two lowercase digits,
/// the high half first.
#[verifier::external_body]
fn hex_encode(data: &[u8]) -> (r: String)
    ensures
        r@ == hex_lower(data@),
{
    hex::encode(data)
}

/// Calls `hex::decode`: an odd length is refused with `OddLength`, else the
/// first byte that is no digit `0-9a-fA-F` with `InvalidHexCharacter`, else
/// each pair of digits gives a byte. Its error is carried over variant by
/// variant.
#[verifier::external_body]
fn hex_decode(data: &[u8]) -> (r: Result<Vec<u8>, HexError>)
    ensures
        match r {
            Ok(v) => hex_decode_spec(data@) == Ok::<Seq<u8>, HexError>(v@),
            Err(e) => hex_decode_spec(data@) == Err::<Seq<u8>, HexError>(e),
        },
{
    match hex::decode(data) {
        Ok(v) => Ok(v),
        Err(hex::FromHexError::InvalidHexCharacter { c, index }) => Err(
            HexError::InvalidHexCharacter { c, index },
        ),
        Err(hex::FromHexError::OddLength) => Err(HexError::OddLength),
        Err(hex::FromHexError::InvalidStringLength) => Err(HexError::InvalidStringLength),
    }
}

/// The lowercase hexadecimal text of `bytes`.
pub fn to_hex(bytes: &[u8]) -> (r: String)
    ensures
        r@ == hex_lower(bytes@),
        r@.len() == 2 * bytes@.len(),
{
    hex_encode(bytes)
}

/// The bytes that a hexadecimal text stands for.
pub fn from_hex(text: &str) -> (r: Result<Vec<u8>, HexError>)
    ensures
        match r {
            Ok(v) => hex_decode_spec(text.spec_bytes()) == Ok::<Seq<u8>, HexError>(v@),
            Err(e) => hex_decode_spec(text.spec_bytes()) == Err::<Seq<u8>, HexError>(e),
        },
{
    hex_decode(text.as_bytes())
}

/// Every digit that `hex_lower` writes is an ASCII character, so the text's
/// UTF-8 bytes are its characters one for one.
pub proof fn lemma_hex_lower_ascii(bytes: Seq<u8>)
    ensures
        vstd::utf8::is_ascii_chars(hex_lower(bytes)),
        vstd::utf8::encode_utf8(hex_lower(bytes)).len() == 2 * bytes.len(),
        forall|k: int|
            0 <= k < 2 * bytes.len() ==> #[trigger] vstd::utf8::encode_utf8(hex_lower(bytes))[k]
                == hex_lower(bytes)[k] as u8,
{
    let h = hex_lower(bytes);
    assert forall|k: int| 0 <= k < h.len() implies '\0' <= #[trigger] h[k] <= '\u{7f}' by {
        let n: int = if k % 2 == 0 { bytes[k / 2] as int / 16 } else { bytes[k / 2] as int % 16 };
        assert(0 <= n < 16);
    }
    vstd::utf8::is_ascii_chars_encode_utf8(h);
}

/// Decoding the text that encoding writes gives the bytes back.
pub proof fn lemma_hex_round_trip(bytes: Seq<u8>)
    ensures
        hex_decode_spec(vstd::utf8::encode_utf8(hex_lower(bytes))) == Ok::<Seq<u8>, HexError>(
            bytes,
        ),
{
    lemma_hex_lower_ascii(bytes);
    let h = hex_lower(bytes);
    let d = vstd::utf8::encode_utf8(h);
    assert forall|k: int| 0 <= k < d.len() implies (#[trigger] hex_digit_value(d[k])) is Some
        && hex_digit_value(d[k])->0 == (if k % 2 == 0 {
            bytes[k / 2] as int / 16
        } else {
            bytes[k / 2] as int % 16
        }) by {
        assert(d[k] == h[k] as u8);
    }
    let r = Seq::new(
        d.len() / 2,
        |k: int| (hex_digit_value(d[2 * k])->0 * 16 + hex_digit_value(d[2 * k + 1])->0) as u8,
    );
    assert forall|k: int| 0 <= k < bytes.len() implies r[k] == bytes[k] by {
        assert(hex_digit_value(d[2 * k]) is Some);
        assert(hex_digit_value(d[2 * k + 1]) is Some);
    }
    assert(r =~= bytes);
}

} // verus!
