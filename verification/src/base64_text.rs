//! Binary payloads as base64 text, and back.
//!
//! Encoding and decoding are the work of the `base64` and `cosmwasm_std`
//! crates. Their results are named here by uninterpreted functions, which
//! the three crate-private functions of this module are believed to compute.

use base64::Engine;
use vstd::prelude::*;

verus! {

/// The standard base64 text of `bytes`, without padding characters.
pub uninterp spec fn base64_unpadded(bytes: Seq<u8>) -> Seq<char>;

/// The standard base64 text of `bytes`, padded with `=` to a multiple of four characters.
pub uninterp spec fn base64_padded(bytes: Seq<u8>) -> Seq<char>;

/// The bytes that `text` stands for in standard base64, padded or not, if it is valid.
pub uninterp spec fn base64_decoded(text: Seq<char>) -> Option<Seq<u8>>;

/// Calls `base64::engine::general_purpose::STANDARD_NO_PAD.encode`.
///
/// Believed, not proved: the text returned is the unpadded standard base64
/// form of `bytes`. And since `cosmwasm_std::Binary::from_base64` reads the
/// standard alphabet and takes text with or without padding, that text
/// decodes to `bytes` again.
#[verifier::external_body]
pub(crate) fn encode_unpadded(bytes: &[u8]) -> (text: String)
    ensures
        text@ == base64_unpadded(bytes@),
        base64_decoded(text@) == Some(bytes@),
{
    base64::engine::general_purpose::STANDARD_NO_PAD.encode(bytes)
}

/// Calls `cosmwasm_std::Binary::to_base64` on a binary value that holds `bytes`.
///
/// Believed, not proved: the text returned is the padded standard base64 form
/// of `bytes`.
#[verifier::external_body]
pub(crate) fn encode_padded(bytes: &[u8]) -> (text: String)
    ensures
        text@ == base64_padded(bytes@),
{
    cosmwasm_std::Binary::from(bytes).to_base64()
}

/// Calls `cosmwasm_std::Binary::from_base64` and takes the bytes out of the
/// binary value; a failure comes back as nothing.
///
/// Believed, not proved: the call succeeds exactly on the texts that
/// [`base64_decoded`] accepts, and then returns the bytes that it names.
#[verifier::external_body]
pub(crate) fn decode_text(text: &str) -> (bytes: Option<Vec<u8>>)
    ensures
        bytes matches Some(b) ==> base64_decoded(text@) == Some(b@),
        bytes is None ==> base64_decoded(text@) is None,
{
    cosmwasm_std::Binary::from_base64(text).ok().map(|binary| binary.0)
}

/// Passes `bytes` through base64 text: encodes them without padding and
/// decodes the text again. The bytes come back unchanged.
pub fn round_trip(bytes: &[u8]) -> (decoded: Vec<u8>)
    ensures
        decoded@ == bytes@,
        base64_decoded(base64_unpadded(bytes@)) == Some(bytes@),
{
    let text = encode_unpadded(bytes);
    match decode_text(text.as_str()) {
        Some(decoded) => decoded,
        None => vstd::pervasive::unreached(),
    }
}

} // verus!
