//! The payload of a gateway notification: hexadecimal text, decoded with the
//! `hex` crate, and for radio frames an AES-128-ECB ciphertext, decrypted
//! with `openssl`.
use vstd::prelude::*;
use vstd::string::StringSliceAdditionalSpecFns;

verus! {

/// Why hexadecimal text could not be decoded.
#[derive(Clone, Copy, Debug, PartialEq, Eq, Structural)]
pub enum HexError {
    /// The byte at `index` is not a hexadecimal digit; `c` is that byte as a char.
    InvalidHexCharacter { c: char, index: usize },
    /// The text has an odd number of bytes.
    OddLength,
    /// The text does not fit a fixed-size target.
    InvalidStringLength,
}

/// The value of a hexadecimal digit (`0-9`, `a-f`, `A-F`).
pub open spec fn hex_digit_value(b: u8) -> Option<nat> {
    if 48 <= b <= 57 {
        Some((b - 48) as nat)
    } else if 97 <= b <= 102 {
        Some((b - 87) as nat)
    } else if 65 <= b <= 70 {
        Some((b - 55) as nat)
    } else {
        None
    }
}

/// The bytes of the digit pairs of `text` from `start` on, or the first
/// byte that is not a hexadecimal digit.
pub open spec fn hex_pairs_from(text: Seq<u8>, start: int) -> Result<Seq<u8>, HexError>
    decreases text.len() - start,
{
    if start < 0 || start + 2 > text.len() {
        Ok(Seq::empty())
    } else {
        match (hex_digit_value(text[start]), hex_digit_value(text[start + 1])) {
            (None, _) => Err(HexError::InvalidHexCharacter { c: text[start] as char, index: start as usize }),
            (Some(_), None) => Err(
                HexError::InvalidHexCharacter { c: text[start + 1] as char, index: (start + 1) as usize },
            ),
            (Some(h), Some(l)) => match hex_pairs_from(text, start + 2) {
                Ok(rest) => Ok(seq![(16 * h + l) as u8] + rest),
                Err(e) => Err(e),
            },
        }
    }
}

/// Hexadecimal text decoded into bytes: each pair of digits is one byte,
/// the first digit the high half.
pub open spec fn hex_decode(text: Seq<u8>) -> Result<Seq<u8>, HexError> {
    if text.len() % 2 != 0 {
        Err(HexError::OddLength)
    } else {
        hex_pairs_from(text, 0)
    }
}

/// Decodes hexadecimal text.
///
/// Trusted: calls `<Vec<u8> as hex::FromHex>::from_hex`, which (hex 0.4.3)
/// fails with `OddLength` on an odd number of bytes and otherwise decodes the
/// digit pairs in order, failing with `InvalidHexCharacter` at the first byte
/// that is not a digit; the contract states exactly that, and the wrapper only
/// renames the error variants.
#[verifier::external_body]
pub fn decode_hex(text: &str) -> (r: Result<Vec<u8>, HexError>)
    ensures
        match hex_decode(text.spec_bytes()) {
            Ok(bytes) => r matches Ok(v) && v@ == bytes,
            Err(e) => r == Err::<Vec<u8>, HexError>(e),
        },
{
    match <Vec<u8> as hex::FromHex>::from_hex(text) {
        Ok(v) => Ok(v),
        Err(hex::FromHexError::InvalidHexCharacter { c, index }) => Err(HexError::InvalidHexCharacter { c, index }),
        Err(hex::FromHexError::OddLength) => Err(HexError::OddLength),
        Err(hex::FromHexError::InvalidStringLength) => Err(HexError::InvalidStringLength),
    }
}

/// The error stack that OpenSSL reports.
#[verifier::external_type_specification]
#[verifier::external_body]
pub struct ExErrorStack(openssl::error::ErrorStack);

/// The plaintext of `ciphertext` under AES-128 in ECB mode with PKCS#7
/// padding and key `key`, or `None` where it cannot be decrypted (a key that
/// is not 16 bytes, a ciphertext that is not whole blocks, bad padding).
pub uninterp spec fn aes_128_ecb_decryption(key: Seq<u8>, ciphertext: Seq<u8>) -> Option<Seq<u8>>;

/// Decrypts `ciphertext` with AES-128-ECB and PKCS#7 padding.
///
/// Trusted: calls `openssl::symm::decrypt` with `Cipher::aes_128_ecb()` and no
/// IV. Whether it succeeds and the plaintext it gives are a function of the
/// key and the ciphertext alone, named [`aes_128_ecb_decryption`]. The call
/// converts the key length and the ciphertext length to a C `int` with
/// `unwrap` (`CipherCtxRef::set_key_length`, `cipher_update_unchecked`), so
/// the `requires` keeps both within `i32::MAX`.
#[verifier::external_body]
pub fn aes_128_ecb_decrypt(key: &[u8], ciphertext: &[u8]) -> (r: Result<Vec<u8>, openssl::error::ErrorStack>)
    requires
        key@.len() <= i32::MAX,
        ciphertext@.len() <= i32::MAX,
    ensures
        match aes_128_ecb_decryption(key@, ciphertext@) {
            Some(p) => r matches Ok(v) && v@ == p,
            None => r is Err,
        },
{
    openssl::symm::decrypt(openssl::symm::Cipher::aes_128_ecb(), key, None, ciphertext)
}

} // verus!
