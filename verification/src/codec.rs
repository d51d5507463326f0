//! Byte-level codecs shared by the pipeline: Keccak-256 digests and
//! hexadecimal text.

use vstd::prelude::*;
use vstd::string::StringSliceAdditionalSpecFns;

use crate::error::HexError;

verus! {

/// The Keccak-256 digest of a byte string.
pub uninterp spec fn keccak256_digest(data: Seq<u8>) -> Seq<u8>;

/// Calls `sha3::Keccak256::digest`. The digest is a function of the input
/// alone and is 32 bytes long.
#[verifier::external_body]
pub(crate) fn keccak256(data: &[u8]) -> (digest: Vec<u8>)
    ensures
        digest@ == keccak256_digest(data@),
        digest@.len() == 32,
{
    <sha3::Keccak256 as sha3::Digest>::digest(data).to_vec()
}

/// The lower-case hexadecimal digit of a value below 16.
pub open spec fn hex_digit(n: int) -> char {
    if n == 0 {
        '0'
    } else if n == 1 {
        '1'
    } else if n == 2 {
        '2'
    } else if n == 3 {
        '3'
    } else if n == 4 {
        '4'
    } else if n == 5 {
        '5'
    } else if n == 6 {
        '6'
    } else if n == 7 {
        '7'
    } else if n == 8 {
        '8'
    } else if n == 9 {
        '9'
    } else if n == 10 {
        'a'
    } else if n == 11 {
        'b'
    } else if n == 12 {
        'c'
    } else if n == 13 {
        'd'
    } else if n == 14 {
        'e'
    } else {
        'f'
    }
}

/// Two lower-case hexadecimal digits for each byte, high half first.
pub open spec fn hex_text(data: Seq<u8>) -> Seq<char> {
    Seq::new(
        2 * data.len(),
        |i: int|
            if i % 2 == 0 {
                hex_digit(data[i / 2] as int / 16)
            } else {
                hex_digit(data[i / 2] as int % 16)
            },
    )
}

/// The value of one hexadecimal digit given as a byte, in either case.
pub open spec fn hex_value(b: u8) -> Option<int> {
    if 0x30 <= b <= 0x39 {
        Some(b - 0x30)
    } else if 0x61 <= b <= 0x66 {
        Some(b - 0x61 + 10)
    } else if 0x41 <= b <= 0x46 {
        Some(b - 0x41 + 10)
    } else {
        None
    }
}

/// Whether `bytes` is an even number of hexadecimal digits.
pub open spec fn is_hex(bytes: Seq<u8>) -> bool {
    &&& bytes.len() % 2 == 0
    &&& forall|i: int| 0 <= i < bytes.len() ==> hex_value(#[trigger] bytes[i]) is Some
}

/// The bytes that the hexadecimal digits `bytes` spell.
pub open spec fn hex_decoded(bytes: Seq<u8>) -> Seq<u8> {
    Seq::new(
        bytes.len() / 2,
        |i: int| (hex_value(bytes[2 * i])->0 * 16 + hex_value(bytes[2 * i + 1])->0) as u8,
    )
}

/// Whether `index` is the place of the first byte of `bytes` that is no
/// hexadecimal digit.
pub open spec fn first_bad_digit(bytes: Seq<u8>, index: int) -> bool {
    &&& 0 <= index < bytes.len()
    &&& hex_value(bytes[index]) is None
    &&& forall|i: int| 0 <= i < index ==> hex_value(#[trigger] bytes[i]) is Some
}

/// What decoding the hexadecimal text with UTF-8 bytes `bytes` gives.
pub open spec fn hex_decode_result(bytes: Seq<u8>, res: Result<Seq<u8>, HexError>) -> bool {
    match res {
        Ok(data) => is_hex(bytes) && data == hex_decoded(bytes),
        Err(HexError::OddLength) => bytes.len() % 2 == 1,
        Err(HexError::InvalidHexCharacter { c, index }) => {
            &&& bytes.len() % 2 == 0
            &&& first_bad_digit(bytes, index as int)
            &&& c == bytes[index as int] as char
        },
        Err(HexError::InvalidStringLength) => false,
    }
}

/// Calls `hex::encode`: two lower-case digits per byte, high half first.
#[verifier::external_body]
pub(crate) fn hex_encode(data: &[u8]) -> (text: String)
    ensures
        text@ == hex_text(data@),
{
    hex::encode(data)
}

/// Calls `hex::decode` on the bytes of `text`. It accepts an even number of
/// digits in either case; it reports an odd length before it looks at any
/// digit, and otherwise the first byte that is no digit.
#[verifier::external_body]
pub(crate) fn hex_decode(text: &str) -> (res: Result<Vec<u8>, HexError>)
    ensures
        hex_decode_result(
            text.spec_bytes(),
            match res {
                Ok(data) => Ok(data@),
                Err(e) => Err(e),
            },
        ),
{
    match hex::decode(text) {
        Ok(data) => Ok(data),
        Err(hex::FromHexError::InvalidHexCharacter { c, index }) => Err(
            HexError::InvalidHexCharacter { c, index },
        ),
        Err(hex::FromHexError::OddLength) => Err(HexError::OddLength),
        Err(hex::FromHexError::InvalidStringLength) => Err(HexError::InvalidStringLength),
    }
}

/// `0x` followed by the lower-case hexadecimal digits of `data`.
pub open spec fn prefixed_hex(data: Seq<u8>) -> Seq<char> {
    "0x"@ + hex_text(data)
}

/// Writes `data` as `0x` and its lower-case hexadecimal digits.
pub fn to_prefixed_hex(data: &[u8]) -> (text: String)
    ensures
        text@ == prefixed_hex(data@),
        text@.len() == 2 * data@.len() + 2,
{
    let digits = hex_encode(data);
    let mut text = String::from_str("0x");
    text.append(digits.as_str());
    proof {
        lemma_prefixed_hex_len(data@);
    }
    text
}

/// The text of `n` bytes has two characters for `0x` and two for each byte.
pub proof fn lemma_prefixed_hex_len(data: Seq<u8>)
    ensures
        prefixed_hex(data).len() == 2 * data.len() + 2,
{
    reveal_strlit("0x");
}

} // verus!
