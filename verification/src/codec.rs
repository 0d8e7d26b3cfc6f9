use vstd::prelude::*;
use vstd::utf8::{decode_utf8, valid_utf8};

verus! {

/// What `base64::encode` returns for the given bytes: their base64 text in
/// the standard alphabet, with padding. The text is a function of the bytes
/// alone; it is named rather than spelled out, and everything the callers
/// need of it is stated where the call is made.
pub uninterp spec fn b64_encode_of(bytes: Seq<u8>) -> Seq<char>;

/// What `base64::decode` returns for the given text: the decoded bytes, or
/// `None` where the text is not valid base64 in the standard alphabet.
pub uninterp spec fn b64_decode_of(text: Seq<char>) -> Option<Seq<u8>>;

/// Relies on `base64::encode` (standard alphabet, padded), which never fails,
/// and on `base64::decode` being its inverse — the defining property of the
/// encoding, which the crate's round-trip tests pin down — so decoding the
/// returned text gives the input bytes back.
#[verifier::external_body]
pub(crate) fn b64_encode(bytes: &[u8]) -> (r: String)
    ensures
        r@ == b64_encode_of(bytes@),
        b64_decode_of(r@) == Some(bytes@),
{
    base64::encode(bytes)
}

/// Relies on `base64::decode` (standard alphabet, padded): `Ok` with the
/// decoded bytes exactly on valid base64 text. The decode error's detail
/// (offending byte and offset) is not read anywhere, so it is dropped here.
#[verifier::external_body]
pub(crate) fn b64_decode(text: &str) -> (r: Option<Vec<u8>>)
    ensures
        match r {
            Some(v) => b64_decode_of(text@) == Some(v@),
            None => b64_decode_of(text@) is None,
        },
{
    match base64::decode(text) {
        Ok(v) => Some(v),
        Err(_) => None,
    }
}

/// Relies on `String::from_utf8` from std: `Ok` exactly on bytes that are
/// valid UTF-8, and then the string whose encoding they are — stated over
/// vstd's UTF-8 model, which `str::as_bytes` is also specified against.
#[verifier::external_body]
pub(crate) fn string_from_utf8(bytes: Vec<u8>) -> (r: Option<String>)
    ensures
        match r {
            Some(s) => valid_utf8(bytes@) && s@ == decode_utf8(bytes@),
            None => !valid_utf8(bytes@),
        },
{
    match String::from_utf8(bytes) {
        Ok(s) => Some(s),
        Err(_) => None,
    }
}

/// Relies on `String::push` from std: appends the one character.
#[verifier::external_body]
pub(crate) fn push_char(s: &mut String, c: char)
    ensures
        final(s)@ == old(s)@.push(c),
{
    s.push(c);
}

} // verus!
