//! SHA-256 hashing through `solana_program::hash`.

use vstd::prelude::*;

verus! {

/// The 32-byte digest that `solana_program::hash::hashv` gives for the list of
/// byte strings `parts`.
pub uninterp spec fn sha256_hashv(parts: Seq<Seq<u8>>) -> Seq<u8>;

/// The digest of one byte string: `hash(data)` is `hashv(&[data])`.
pub open spec fn sha256_hash(data: Seq<u8>) -> Seq<u8> {
    sha256_hashv(seq![data])
}

/// Calls `solana_program::hash::hash` and returns the digest's bytes.
/// Trusted: as the crate's source shows (`hash(val)` is `hashv(&[val])`), the
/// digest is the named `hashv` result of the one-element list holding the
/// input bytes.
#[verifier::external_body]
pub fn hash_bytes(data: &[u8]) -> (digest: [u8; 32])
    ensures
        digest@ == sha256_hashv(seq![data@]),
{
    solana_program::hash::hash(data).to_bytes()
}

/// Calls `solana_program::hash::hashv` on the two 32-byte strings `first`
/// and `second`, in that order, and returns the digest's bytes.
/// Trusted: the digest is the named result `sha256_hashv` of the list
/// `[first, second]`.
#[verifier::external_body]
pub fn hash_pair(first: &[u8; 32], second: &[u8; 32]) -> (digest: [u8; 32])
    ensures
        digest@ == sha256_hashv(seq![first@, second@]),
{
    solana_program::hash::hashv(&[first.as_slice(), second.as_slice()]).to_bytes()
}

} // verus!
