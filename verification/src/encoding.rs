//! Base64 transport encoding of binary fields.

use vstd::prelude::*;
use crate::result::Error;

verus! {

/// What `base64::decode` makes of a text: the bytes it stands for, or
/// `None` where the text is not valid standard base64.
pub uninterp spec fn base64_decoded(text: Seq<char>) -> Option<Seq<u8>>;

/// What `base64::encode` makes of a byte string.
pub uninterp spec fn base64_encoded(bytes: Seq<u8>) -> Seq<char>;

#[verifier::external_type_specification]
#[verifier::external_body]
pub struct ExDecodeError(base64::DecodeError);

/// Calls `base64::decode` with the standard alphabet. The contract only
/// names the outcome: the same text always decodes to the same bytes or
/// always fails.
#[verifier::external_body]
fn decode(text: &str) -> (r: Result<Vec<u8>, base64::DecodeError>)
    ensures
        match r {
            Ok(bytes) => base64_decoded(text@) == Some(bytes@),
            Err(_) => base64_decoded(text@) is None,
        },
{
    base64::decode(text)
}

/// Calls `base64::encode` with the standard alphabet and padding. The
/// contract only names the text that comes back. The length computation
/// inside cannot overflow for a slice that fits in memory.
#[verifier::external_body]
fn encode(bytes: &[u8]) -> (text: String)
    ensures
        text@ == base64_encoded(bytes@),
{
    base64::encode(bytes)
}

/// Decodes a binary field from its transport text. A text that is not
/// base64 makes the request a bad one.
pub fn decode_blob(text: &str) -> (r: Result<Vec<u8>, Error>)
    ensures
        match base64_decoded(text@) {
            Some(bytes) => r matches Ok(decoded) && decoded@ == bytes,
            None => r matches Err(e) && e == Error::BadRequest,
        },
{
    match decode(text) {
        Ok(bytes) => Ok(bytes),
        Err(_) => Err(Error::BadRequest),
    }
}

/// Encodes a binary field as its transport text.
pub fn encode_blob(bytes: &[u8]) -> (text: String)
    ensures
        text@ == base64_encoded(bytes@),
{
    encode(bytes)
}

} // verus!
