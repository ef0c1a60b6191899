//! Merkle proofs with sorted-pair hashing.
//!
//! A claimer's leaf is the SHA-256 digest of its 32-byte key. Each proof node
//! is combined with the running digest by hashing the two in byte order, the
//! smaller first, so a proof needs no left/right markers.

use vstd::prelude::*;
use crate::bytes::{bytes_le, key_eq, key_le, lemma_bytes_le_total};
use crate::hashing::{hash_bytes, hash_pair, sha256_hash, sha256_hashv};

verus! {

broadcast use vstd::array::array_len_matches_n;

/// The leaf of a claimer: the digest of its key.
pub open spec fn leaf_of(claimer: Seq<u8>) -> Seq<u8> {
    sha256_hash(claimer)
}

/// One step up the tree: the digest of the running value and a proof node,
/// the smaller (in byte order) hashed first.
pub open spec fn combine(current: Seq<u8>, node: Seq<u8>) -> Seq<u8> {
    if bytes_le(current, node) {
        sha256_hashv(seq![current, node])
    } else {
        sha256_hashv(seq![node, current])
    }
}

/// The value reached from `start` by combining it with each proof node in turn.
pub open spec fn fold_proof(start: Seq<u8>, proof: Seq<[u8; 32]>) -> Seq<u8>
    decreases proof.len(),
{
    if proof.len() == 0 {
        start
    } else {
        combine(fold_proof(start, proof.drop_last()), proof.last()@)
    }
}

/// The root that `proof` leads to from the leaf of `claimer`.
pub open spec fn proof_root(claimer: Seq<u8>, proof: Seq<[u8; 32]>) -> Seq<u8> {
    fold_proof(leaf_of(claimer), proof)
}

/// `proof` shows that `claimer` is a leaf of the tree whose root is `root`.
pub open spec fn proves_membership(claimer: Seq<u8>, proof: Seq<[u8; 32]>, root: Seq<u8>) -> bool {
    proof_root(claimer, proof) == root
}

/// The leaf of `claimer`: the digest of its key.
pub fn leaf_hash(claimer: &[u8; 32]) -> (leaf: [u8; 32])
    ensures
        leaf@ == leaf_of(claimer@),
        leaf@ == sha256_hashv(seq![claimer@]),
{
    hash_bytes(claimer.as_slice())
}

/// Combines the running digest with one proof node, smaller first.
pub fn combine_node(current: &[u8; 32], node: &[u8; 32]) -> (next: [u8; 32])
    ensures
        next@ == combine(current@, node@),
        bytes_le(current@, node@) ==> next@ == sha256_hashv(seq![current@, node@]),
        !bytes_le(current@, node@) ==> next@ == sha256_hashv(seq![node@, current@]),
{
    if key_le(current, node) {
        hash_pair(current, node)
    } else {
        hash_pair(node, current)
    }
}

/// The root that `proof` leads to from the leaf of `claimer`.
pub fn compute_root(claimer: &[u8; 32], proof: &Vec<[u8; 32]>) -> (root: [u8; 32])
    ensures
        root@ == proof_root(claimer@, proof@),
        root@ == fold_proof(sha256_hashv(seq![claimer@]), proof@),
{
    let mut computed = leaf_hash(claimer);
    let n = proof.len();
    let mut i: usize = 0;
    assert(proof@.take(0) =~= Seq::<[u8; 32]>::empty());
    while i < n
        invariant
            0 <= i <= n,
            n == proof@.len(),
            computed@ == fold_proof(leaf_of(claimer@), proof@.take(i as int)),
        decreases n - i,
    {
        let node = proof[i];
        assert(proof@.take(i + 1).drop_last() =~= proof@.take(i as int));
        computed = combine_node(&computed, &node);
        i = i + 1;
    }
    assert(proof@.take(n as int) =~= proof@);
    computed
}

/// Whether `proof` leads from the leaf of `claimer` to `root`.
pub fn verify_proof(claimer: &[u8; 32], proof: &Vec<[u8; 32]>, root: &[u8; 32]) -> (valid: bool)
    ensures
        valid == proves_membership(claimer@, proof@, root@),
        valid == (fold_proof(sha256_hashv(seq![claimer@]), proof@) == root@),
{
    let computed = compute_root(claimer, proof);
    key_eq(&computed, root)
}

/// Sibling order does not matter: combining `a` with `b` gives what combining
/// `b` with `a` gives, for byte strings of one length.
pub proof fn lemma_combine_symmetric(a: Seq<u8>, b: Seq<u8>)
    requires
        a.len() == b.len(),
    ensures
        combine(a, b) == combine(b, a),
{
    lemma_bytes_le_total(a, b);
}

/// Following a proof in two parts is following the whole proof: the root
/// reached by `first + second` from `start` is the one reached by `second`
/// from where `first` ends.
pub proof fn lemma_fold_proof_append(start: Seq<u8>, first: Seq<[u8; 32]>, second: Seq<[u8; 32]>)
    ensures
        fold_proof(start, first + second) == fold_proof(fold_proof(start, first), second),
    decreases second.len(),
{
    if second.len() == 0 {
        assert(first + second =~= first);
    } else {
        assert((first + second).drop_last() =~= first + second.drop_last());
        lemma_fold_proof_append(start, first, second.drop_last());
    }
}

/// An empty proof proves exactly the claimer whose leaf is the root.
pub proof fn lemma_empty_proof(claimer: Seq<u8>, root: Seq<u8>)
    ensures
        proves_membership(claimer, Seq::<[u8; 32]>::empty(), root) <==> root == leaf_of(claimer),
{
}

/// In a tree of two leaves, each claimer's proof is the other's leaf, and
/// both lead to the same root.
pub proof fn lemma_two_leaf_tree(x: Seq<u8>, y: [u8; 32], z: Seq<u8>, w: [u8; 32])
    requires
        y@ == leaf_of(z),
        w@ == leaf_of(x),
    ensures
        proof_root(x, seq![y]) == proof_root(z, seq![w]),
{
    let py = seq![y];
    let pw = seq![w];
    assert(py.drop_last() =~= Seq::<[u8; 32]>::empty());
    assert(pw.drop_last() =~= Seq::<[u8; 32]>::empty());
    assert(py.last() == y);
    assert(pw.last() == w);
    assert(fold_proof(leaf_of(x), py.drop_last()) == leaf_of(x));
    assert(fold_proof(leaf_of(z), pw.drop_last()) == leaf_of(z));
    assert(proof_root(x, seq![y]) == combine(leaf_of(x), leaf_of(z)));
    assert(proof_root(z, seq![w]) == combine(leaf_of(z), leaf_of(x)));
    lemma_combine_symmetric(leaf_of(x), leaf_of(z));
}

/// A claimer's leaf is the SHA-256 digest of its key alone.
pub proof fn lemma_leaf_is_key_digest(claimer: Seq<u8>)
    ensures
        leaf_of(claimer) == sha256_hashv(seq![claimer]),
{
}

/// Each step hashes the two values smaller first: when `current <= node` in
/// byte order the digest is of `current` then `node`, otherwise of `node`
/// then `current`.
pub proof fn lemma_combine_smaller_first(current: Seq<u8>, node: Seq<u8>)
    requires
        current.len() == node.len(),
    ensures
        bytes_le(current, node) ==> combine(current, node) == sha256_hashv(seq![current, node]),
        bytes_le(node, current) ==> combine(current, node) == sha256_hashv(seq![node, current]),
{
    lemma_bytes_le_total(current, node);
}

/// Following a proof: the empty proof leaves the start where it is, and a
/// proof extended by one node leads one step further, to the combination of
/// where the shorter proof ends with that node.
pub proof fn lemma_fold_proof_steps(start: Seq<u8>, proof: Seq<[u8; 32]>, node: [u8; 32])
    ensures
        fold_proof(start, Seq::<[u8; 32]>::empty()) == start,
        fold_proof(start, proof.push(node)) == combine(fold_proof(start, proof), node@),
{
    assert(proof.push(node).drop_last() =~= proof);
}

/// Membership is decided by the whole proof, of any length: `proof` proves
/// `claimer` under `root` exactly when following every node of it from the
/// digest of the claimer's key reaches `root`.
pub proof fn lemma_membership_is_whole_fold(claimer: Seq<u8>, proof: Seq<[u8; 32]>, root: Seq<u8>)
    ensures
        proves_membership(claimer, proof, root) <==> fold_proof(sha256_hashv(seq![claimer]), proof)
            == root,
        proof_root(claimer, proof) == fold_proof(sha256_hashv(seq![claimer]), proof),
{
}

} // verus!
