//! What the decoder takes from outside the library: base64 decoding and the
//! check that bytes are UTF-8.

use vstd::prelude::*;
use vstd::utf8::{decode_utf8, valid_utf8};

verus! {

/// Why a text is no base64.
#[derive(Debug, Clone, Copy, PartialEq, Eq)]
pub enum Base64Error {
    /// A byte outside the alphabet, or padding in the wrong place, with its
    /// offset.
    InvalidByte(usize, u8),
    /// A length that no encoding has.
    InvalidLength(usize),
    /// A last symbol whose spare bits are not zero, with its offset.
    InvalidLastSymbol(usize, u8),
    /// Padding that is missing or not canonical.
    InvalidPadding,
}

/// The bytes that a text stands for in standard base64 with padding, or the
/// reason why it stands for none.
pub uninterp spec fn base64_decoded(text: Seq<char>) -> Result<Seq<u8>, Base64Error>;

/// Calls `base64::Engine::decode` on the engine
/// `base64::engine::general_purpose::STANDARD`.
///
/// Trusted: the result, bytes or error, is the one that `base64_decoded`
/// names for the same text.
#[verifier::external_body]
pub(crate) fn base64_decode(data: &str) -> (r: Result<Vec<u8>, Base64Error>)
    ensures
        match r {
            Ok(bytes) => base64_decoded(data@) == Ok::<Seq<u8>, Base64Error>(bytes@),
            Err(e) => base64_decoded(data@) == Err::<Seq<u8>, Base64Error>(e),
        },
{
    match base64::Engine::decode(&base64::engine::general_purpose::STANDARD, data) {
        Ok(bytes) => Ok(bytes),
        Err(base64::DecodeError::InvalidByte(at, byte)) => Err(Base64Error::InvalidByte(at, byte)),
        Err(base64::DecodeError::InvalidLength(len)) => Err(Base64Error::InvalidLength(len)),
        Err(base64::DecodeError::InvalidLastSymbol(at, byte)) => Err(
            Base64Error::InvalidLastSymbol(at, byte),
        ),
        Err(base64::DecodeError::InvalidPadding) => Err(Base64Error::InvalidPadding),
    }
}

/// Calls `String::from_utf8`.
///
/// Trusted: there is a text exactly where the bytes are valid UTF-8, and it
/// is the text that they encode.
#[verifier::external_body]
pub(crate) fn string_from_utf8(bytes: Vec<u8>) -> (r: Option<String>)
    ensures
        r is Some <==> valid_utf8(bytes@),
        r matches Some(text) ==> text@ == decode_utf8(bytes@),
{
    match String::from_utf8(bytes) {
        Ok(text) => Some(text),
        Err(_) => None,
    }
}

} // verus!
