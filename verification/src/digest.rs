use vstd::prelude::*;

verus! {

/// The 32-byte Keccak-256 digest of `b`: the envelope fingerprint. The digest
/// depends on the input bytes alone; its value is stated nowhere, so every
/// contract over it goes through this name.
pub uninterp spec fn digest_of(b: Seq<u8>) -> Seq<u8>;

/// Relies on solana_program::keccak::hash: the Keccak-256 digest of the
/// input, a pure function of the input bytes, always 32 bytes long.
#[verifier::external_body]
pub(crate) fn keccak256(b: &Vec<u8>) -> (r: Vec<u8>)
    ensures
        r@ == digest_of(b@),
        r@.len() == 32,
{
    solana_program::keccak::hash(b.as_slice()).to_bytes().to_vec()
}

} // verus!
