//! Base64 coding of inline file bytes, done by the `base64` crate with its
//! standard alphabet and canonical padding.
use vstd::prelude::*;

verus! {

/// What the standard base64 engine makes of `text`: the decoded bytes, or the
/// text of the `DecodeError` it reports.
pub uninterp spec fn base64_decoded(text: Seq<char>) -> Result<Seq<u8>, Seq<char>>;

/// The text that the standard base64 engine (with padding) encodes `bytes` to.
pub uninterp spec fn base64_encoded(bytes: Seq<u8>) -> Seq<char>;

/// The standard base64 engine decodes `text` to `bytes`.
pub open spec fn decodes_to(text: Seq<char>, bytes: Seq<u8>) -> bool {
    base64_decoded(text) == Ok::<Seq<u8>, Seq<char>>(bytes)
}

/// `base64::engine::general_purpose::STANDARD.decode`: the result is what
/// `base64_decoded` names for the text, with a decoding error rendered by its
/// `Display` text. The engine accepts only canonical text (padding required,
/// no trailing bits), so a text that decodes is the encoding of its bytes.
/// Nothing is claimed of which texts decode.
#[verifier::external_body]
pub(crate) fn decode_base64(text: &str) -> (r: Result<Vec<u8>, String>)
    ensures
        match r {
            Ok(b) => base64_decoded(text@) == Ok::<Seq<u8>, Seq<char>>(b@) && base64_encoded(b@)
                == text@,
            Err(m) => base64_decoded(text@) == Err::<Seq<u8>, Seq<char>>(m@),
        },
{
    match base64::Engine::decode(&base64::engine::general_purpose::STANDARD, text) {
        Ok(b) => Ok(b),
        Err(e) => Err(e.to_string()),
    }
}

/// `base64::engine::general_purpose::STANDARD.encode`: the result is what
/// `base64_encoded` names for the bytes, and the same engine decodes it back
/// to the bytes (the output is canonically padded, with zero trailing bits).
/// The engine panics only when the encoded length overflows `usize`; a slice
/// never holds more than `isize::MAX` bytes, and no such length overflows.
#[verifier::external_body]
pub(crate) fn encode_base64(bytes: &[u8]) -> (encoded: String)
    ensures
        encoded@ == base64_encoded(bytes@),
        decodes_to(encoded@, bytes@),
{
    base64::Engine::encode(&base64::engine::general_purpose::STANDARD, bytes)
}

} // verus!
