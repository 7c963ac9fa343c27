use vstd::prelude::*;

verus! {

/// What a byte buffer decodes to under standard base64 with padding, or
/// nothing when it is not valid base64.
pub uninterp spec fn b64_decoded(bytes: Seq<u8>) -> Option<Seq<u8>>;

/// The standard, padded base64 text of a byte buffer.
pub uninterp spec fn b64_encoded(bytes: Seq<u8>) -> Seq<char>;

/// Relies on base64::decode_config with the standard alphabet: a pure
/// function of the input bytes that fails exactly on invalid base64. The
/// library's length estimate adds three to the input length, so inputs at
/// the very top of the address space are excluded.
#[verifier::external_body]
pub(crate) fn b64_decode(bytes: &[u8]) -> (r: Option<Vec<u8>>)
    requires
        bytes@.len() <= usize::MAX - 3,
    ensures
        r is Some <==> b64_decoded(bytes@) is Some,
        r matches Some(v) ==> Some(v@) == b64_decoded(bytes@),
{
    base64::decode_config(bytes, base64::STANDARD).ok()
}

/// Relies on base64::encode_config with the standard alphabet: a pure
/// function of the input bytes. The library panics when the encoded size
/// overflows, so over-half-address-space inputs are excluded.
#[verifier::external_body]
pub(crate) fn b64_encode(bytes: &Vec<u8>) -> (r: String)
    requires
        bytes@.len() <= usize::MAX / 2,
    ensures
        r@ == b64_encoded(bytes@),
{
    base64::encode_config(bytes, base64::STANDARD)
}

} // verus!
