//! The transport encoding of byte strings: base64 with the URL-safe alphabet
//! and no padding.

use vstd::prelude::*;

verus! {

/// The text that a byte string is written as in base64, with the URL-safe
/// alphabet and without padding.
pub uninterp spec fn base64url_text(bytes: Seq<u8>) -> Seq<char>;

/// The byte string that a text stands for in base64 with the URL-safe
/// alphabet and without padding, if it stands for one.
pub uninterp spec fn base64url_bytes(text: Seq<u8>) -> Option<Seq<u8>>;

/// `Engine::encode` of base64 on its engine `URL_SAFE_NO_PAD`: the text that
/// the bytes are written as.
#[verifier::external_body]
pub(crate) fn engine_encode(bytes: &[u8]) -> (r: String)
    ensures
        r@ == base64url_text(bytes@),
{
    base64::Engine::encode(&base64::engine::general_purpose::URL_SAFE_NO_PAD, bytes)
}

/// `Engine::decode` of base64 on its engine `URL_SAFE_NO_PAD`: the bytes
/// that the text stands for, and nothing where the engine reports an error.
#[verifier::external_body]
pub(crate) fn engine_decode(text: &[u8]) -> (r: Option<Vec<u8>>)
    ensures
        r is Some <==> base64url_bytes(text@) is Some,
        r is Some ==> r->Some_0@ == base64url_bytes(text@)->Some_0,
{
    match base64::Engine::decode(&base64::engine::general_purpose::URL_SAFE_NO_PAD, text) {
        Ok(bytes) => Some(bytes),
        Err(_) => None,
    }
}

} // verus!
