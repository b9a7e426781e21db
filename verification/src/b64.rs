use vstd::prelude::*;

verus! {

/// The standard-alphabet, padded base64 rendering of a byte sequence. The
/// encoding is a function of the bytes alone; it is given by name here and
/// produced only by `base64_encode`.
pub uninterp spec fn base64_of(bytes: Seq<u8>) -> Seq<char>;

/// Relies on the base64 crate's `STANDARD` engine (`Engine::encode`): the
/// standard alphabet with padding, producing four characters for every three
/// input bytes, rounded up, from the bytes alone.
#[verifier::external_body]
pub(crate) fn base64_encode(bytes: &Vec<u8>) -> (r: String)
    ensures
        r@ == base64_of(bytes@),
        r@.len() == 4 * ((bytes@.len() + 2) / 3),
{
    base64::Engine::encode(&base64::engine::general_purpose::STANDARD, bytes)
}

} // verus!
