use vstd::prelude::*;
use sha1::Digest;

verus! {

/// The 20-byte SHA-1 digest of `input`, a function of the input bytes
/// alone. Left without a definition: the hash is computed by the `sha1`
/// crate, never restated here.
pub uninterp spec fn sha1_of(input: Seq<u8>) -> Seq<u8>;

/// Relies on `sha1::Sha1::digest` (through the `digest` crate's `Digest`
/// trait): one-shot SHA-1, returning the fixed 20-byte digest of the input
/// bytes and nothing else.
#[verifier::external_body]
pub(crate) fn sha1_digest(input: &[u8]) -> (r: Vec<u8>)
    ensures
        r@ == sha1_of(input@),
        r@.len() == 20,
{
    sha1::Sha1::digest(input).to_vec()
}

} // verus!
