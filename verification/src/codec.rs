//! Base64 text, as the engine sends images and sounds.

use vstd::prelude::*;

verus! {

/// Declares `base64::DecodeError`, the reason why a text did not decode.
/// Nothing is read from it.
#[verifier::external_type_specification]
#[verifier::external_body]
pub struct ExDecodeError(base64::DecodeError);

/// The bytes that standard, padded base64 text stands for, or `None` where
/// the text is not such an encoding.
pub uninterp spec fn base64_decoded(text: Seq<char>) -> Option<Seq<u8>>;

/// The standard, padded base64 text for the given bytes.
pub uninterp spec fn base64_encoded(bytes: Seq<u8>) -> Seq<char>;

/// What a decoding attempt yielded, without the reason of a failure.
pub open spec fn decode_outcome(r: Result<Vec<u8>, base64::DecodeError>) -> Option<Seq<u8>> {
    match r {
        Ok(bytes) => Some(bytes@),
        Err(_) => None,
    }
}

/// Calls `decode` of `base64::engine::general_purpose::STANDARD` on the text.
///
/// Trusted: the bytes that come back are a function of the text alone, named
/// `base64_decoded`, and the call fails exactly where that function has no
/// value.
#[verifier::external_body]
pub(crate) fn base64_decode(text: &String) -> (r: Result<Vec<u8>, base64::DecodeError>)
    ensures
        decode_outcome(r) == base64_decoded(text@),
{
    base64::Engine::decode(&base64::engine::general_purpose::STANDARD, text)
}

/// Calls `encode` of `base64::engine::general_purpose::STANDARD` on the bytes.
///
/// Trusted: the text that comes back is a function of the bytes alone, named
/// `base64_encoded`. The call panics only where the length of the text does
/// not fit in `usize`, which no vector's length can cause.
#[verifier::external_body]
pub(crate) fn base64_encode(bytes: &Vec<u8>) -> (r: String)
    ensures
        r@ == base64_encoded(bytes@),
{
    base64::Engine::encode(&base64::engine::general_purpose::STANDARD, bytes)
}

/// The bytes of base64 text, or `None` where the text does not decode.
pub(crate) fn decode(text: &String) -> (r: Option<Vec<u8>>)
    ensures
        crate::views::opt_view(r) == base64_decoded(text@),
{
    match base64_decode(text) {
        Ok(bytes) => Some(bytes),
        Err(_) => None,
    }
}

} // verus!
