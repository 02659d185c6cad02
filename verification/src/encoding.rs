//! URL-safe base64 without padding, as the `base64` crate's `URL_SAFE_NO_PAD`
//! engine computes it.

use base64::Engine;
use vstd::prelude::*;

verus! {

/// `base64::DecodeError`, opaque here: a value is carried, never looked into.
#[verifier::external_type_specification]
#[verifier::external_body]
pub struct ExDecodeError(base64::DecodeError);

/// The text that the engine's `encode` gives for `data`.
pub uninterp spec fn base64url_encoded(data: Seq<u8>) -> Seq<char>;

/// The bytes that the engine's `decode` gives for `text`, where it accepts it.
pub uninterp spec fn base64url_decoded(text: Seq<char>) -> Option<Seq<u8>>;

/// Calls `URL_SAFE_NO_PAD.encode`. The contract names the text that comes back
/// and adds what the engine is for: decoding that text gives `data` again.
/// Inputs whose encoded length would not fit in `usize` are left out, as the
/// call does not return on them.
#[verifier::external_body]
pub(crate) fn base64url_encode(data: &[u8]) -> (text: String)
    requires
        data@.len() <= 0x3000_0000,
    ensures
        text@ == base64url_encoded(data@),
        base64url_decoded(text@) == Some(data@),
{
    base64::engine::general_purpose::URL_SAFE_NO_PAD.encode(data)
}

/// Calls `URL_SAFE_NO_PAD.decode` on the bytes of `text`. The contract names
/// what comes back: the decoded bytes, or nothing where the engine refuses
/// the text.
#[verifier::external_body]
pub(crate) fn base64url_decode(text: &str) -> (out: Result<Vec<u8>, base64::DecodeError>)
    ensures
        match out {
            Ok(bytes) => base64url_decoded(text@) == Some(bytes@),
            Err(_) => base64url_decoded(text@) is None,
        },
{
    base64::engine::general_purpose::URL_SAFE_NO_PAD.decode(text.as_bytes())
}

} // verus!
