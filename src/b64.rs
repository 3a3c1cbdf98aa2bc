//! Base64 text for PCM payloads, through the `base64` crate's standard
//! alphabet with padding.
use base64::Engine;
use vstd::prelude::*;
use vstd::string::StringSliceAdditionalSpecFns;

verus! {

/// The padded standard base64 text of `b`.
pub uninterp spec fn base64_of(b: Seq<u8>) -> Seq<char>;

/// The bytes that the padded standard base64 decoder reads from `s`, or
/// `None` where it rejects `s`.
pub uninterp spec fn base64_decoded(s: Seq<u8>) -> Option<Seq<u8>>;

/// Length of the padded base64 text of `n` bytes.
pub open spec fn base64_len(n: nat) -> nat {
    (4 * ((n + 2) / 3)) as nat
}

#[verifier::external_type_specification]
#[verifier::external_body]
pub struct ExDecodeError(base64::DecodeError);

/// Relies on `base64::Engine::encode` of `general_purpose::STANDARD`: padded
/// text, four characters for each started group of three bytes. It panics only
/// where that length overflows `usize`.
#[verifier::external_body]
pub(crate) fn standard_encode(b: &[u8]) -> (r: String)
    requires
        b@.len() <= usize::MAX / 2,
    ensures
        r@ == base64_of(b@),
        r@.len() == base64_len(b@.len()),
{
    base64::engine::general_purpose::STANDARD.encode(b)
}

/// Relies on `base64::Engine::decode` of `general_purpose::STANDARD`: the
/// decoded bytes, or the error that it reports on malformed text.
#[verifier::external_body]
fn standard_decode(s: &[u8]) -> (r: Result<Vec<u8>, base64::DecodeError>)
    ensures
        r is Ok <==> base64_decoded(s@) is Some,
        r is Ok ==> base64_decoded(s@) == Some(r->Ok_0@),
{
    base64::engine::general_purpose::STANDARD.decode(s)
}

/// Why a base64 PCM payload could not be read.
#[derive(Debug)]
pub enum PcmDecodeError {
    /// The text is not padded standard base64; the decoder's report.
    InvalidBase64(base64::DecodeError),
}

/// Base64 text of a 16-bit PCM buffer.
pub fn encode_buffer_to_base64_pcm(buf: &[u8]) -> (r: String)
    requires
        buf@.len() <= usize::MAX / 2,
    ensures
        r@ == base64_of(buf@),
        r@.len() == base64_len(buf@.len()),
{
    standard_encode(buf)
}

/// The raw PCM bytes carried by base64 text.
pub fn decode_base64_pcm_to_buffer(b64: &str) -> (r: Result<Vec<u8>, PcmDecodeError>)
    ensures
        match base64_decoded(b64.spec_bytes()) {
            Some(bytes) => r is Ok && r->Ok_0@ == bytes,
            None => r is Err,
        },
{
    match standard_decode(b64.as_bytes()) {
        Ok(bytes) => Ok(bytes),
        Err(e) => Err(PcmDecodeError::InvalidBase64(e)),
    }
}

} // verus!
