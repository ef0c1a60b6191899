//! Lexicographic order and equality on 32-byte strings (keys, digests).

use vstd::prelude::*;

verus! {

broadcast use vstd::array::array_len_matches_n;

/// `i` is the first position at which `a` and `b` differ.
pub open spec fn first_diff_at(a: Seq<u8>, b: Seq<u8>, i: int) -> bool {
    &&& 0 <= i < a.len()
    &&& i < b.len()
    &&& a[i] != b[i]
    &&& forall|j: int| 0 <= j < i ==> a[j] == b[j]
}

/// `a` comes strictly before `b` in byte-wise lexicographic order
/// (both taken of the same length).
pub open spec fn bytes_lt(a: Seq<u8>, b: Seq<u8>) -> bool {
    exists|i: int| #[trigger] first_diff_at(a, b, i) && a[i] < b[i]
}

/// `a` comes before `b` or equals it: the order `<=` of `[u8; 32]`.
pub open spec fn bytes_le(a: Seq<u8>, b: Seq<u8>) -> bool {
    a == b || bytes_lt(a, b)
}

/// Two sequences have at most one first difference.
pub proof fn lemma_first_diff_unique(a: Seq<u8>, b: Seq<u8>, i: int, k: int)
    requires
        first_diff_at(a, b, i),
        first_diff_at(a, b, k),
    ensures
        i == k,
{
    if i < k {
        assert(a[i] == b[i]);
    } else if k < i {
        assert(a[k] == b[k]);
    }
}

/// Two different sequences of one length differ at some first position.
pub proof fn lemma_first_diff_exists(a: Seq<u8>, b: Seq<u8>, k: int)
    requires
        a.len() == b.len(),
        a != b,
        0 <= k <= a.len(),
        forall|j: int| 0 <= j < k ==> a[j] == b[j],
    ensures
        exists|i: int| #[trigger] first_diff_at(a, b, i),
    decreases a.len() - k,
{
    if k == a.len() {
        assert(a =~= b);
    } else if a[k] != b[k] {
        assert(first_diff_at(a, b, k));
    } else {
        lemma_first_diff_exists(a, b, k + 1);
    }
}

/// On sequences of one length, exactly one of `a < b`, `a == b`, `b < a` holds.
pub proof fn lemma_bytes_trichotomy(a: Seq<u8>, b: Seq<u8>)
    requires
        a.len() == b.len(),
    ensures
        a == b ==> !bytes_lt(a, b) && !bytes_lt(b, a),
        a != b ==> (bytes_lt(a, b) <==> !bytes_lt(b, a)),
{
    if a == b {
        assert forall|i: int| !first_diff_at(a, b, i) by {}
    } else {
        lemma_first_diff_exists(a, b, 0);
        let i = choose|i: int| #[trigger] first_diff_at(a, b, i);
        assert(first_diff_at(b, a, i));
        assert forall|k: int| #[trigger] first_diff_at(a, b, k) implies k == i by {
            lemma_first_diff_unique(a, b, i, k);
        }
        assert forall|k: int| #[trigger] first_diff_at(b, a, k) implies k == i by {
            assert(first_diff_at(a, b, k));
            lemma_first_diff_unique(a, b, i, k);
        }
    }
}

/// The order `<=` on byte strings of one length is total and antisymmetric.
pub proof fn lemma_bytes_le_total(a: Seq<u8>, b: Seq<u8>)
    requires
        a.len() == b.len(),
    ensures
        bytes_le(a, b) || bytes_le(b, a),
        bytes_le(a, b) && bytes_le(b, a) ==> a == b,
{
    lemma_bytes_trichotomy(a, b);
}

/// `a <= b`, comparing the bytes from the first on.
pub fn key_le(a: &[u8; 32], b: &[u8; 32]) -> (le: bool)
    ensures
        le == bytes_le(a@, b@),
{
    let mut i: usize = 0;
    while i < 32
        invariant
            0 <= i <= 32,
            a@.len() == 32,
            b@.len() == 32,
            forall|j: int| 0 <= j < i ==> a@[j] == b@[j],
        decreases 32 - i,
    {
        if a[i] != b[i] {
            proof {
                assert(first_diff_at(a@, b@, i as int));
                lemma_bytes_trichotomy(a@, b@);
                if a@ == b@ {
                    assert(a@[i as int] == b@[i as int]);
                }
            }
            return a[i] < b[i];
        }
        i = i + 1;
    }
    assert(a@ =~= b@);
    true
}

/// `a == b`, byte by byte.
pub fn key_eq(a: &[u8; 32], b: &[u8; 32]) -> (eq: bool)
    ensures
        eq == (a@ == b@),
{
    let mut i: usize = 0;
    while i < 32
        invariant
            0 <= i <= 32,
            a@.len() == 32,
            b@.len() == 32,
            forall|j: int| 0 <= j < i ==> a@[j] == b@[j],
        decreases 32 - i,
    {
        if a[i] != b[i] {
            assert(a@[i as int] != b@[i as int]);
            return false;
        }
        i = i + 1;
    }
    assert(a@ =~= b@);
    true
}

/// Byte order is decided by the first byte, then by the rest: of two byte
/// strings of one length, the one with the smaller first byte comes first,
/// and when the first bytes are equal the rests decide; the empty string is
/// equal to itself.
pub proof fn lemma_bytes_le_by_first_byte(a: Seq<u8>, b: Seq<u8>)
    requires
        a.len() == b.len(),
    ensures
        a.len() == 0 ==> bytes_le(a, b),
        a.len() > 0 && a[0] < b[0] ==> bytes_le(a, b) && !bytes_le(b, a),
        a.len() > 0 && a[0] > b[0] ==> !bytes_le(a, b) && bytes_le(b, a),
        a.len() > 0 && a[0] == b[0] ==> (bytes_le(a, b) <==> bytes_le(a.drop_first(), b.drop_first())),
{
    if a.len() == 0 {
        assert(a =~= b);
    } else {
        lemma_bytes_trichotomy(a, b);
        if a[0] < b[0] {
            assert(first_diff_at(a, b, 0));
        } else if a[0] > b[0] {
            assert(first_diff_at(b, a, 0));
        } else {
            let ta = a.drop_first();
            let tb = b.drop_first();
            lemma_bytes_trichotomy(ta, tb);
            if a == b {
                assert(ta =~= tb);
            } else if ta == tb {
                assert forall|k: int| 0 <= k < a.len() implies a[k] == b[k] by {
                    if k > 0 {
                        assert(ta[k - 1] == tb[k - 1]);
                    }
                }
                assert(a =~= b);
            } else {
                // the first differences of (a, b) and (ta, tb) are one apart
                if bytes_lt(a, b) {
                    let i = choose|i: int| #[trigger] first_diff_at(a, b, i) && a[i] < b[i];
                    assert(i > 0);
                    assert(first_diff_at(ta, tb, i - 1));
                    assert(bytes_lt(ta, tb));
                }
                if bytes_lt(ta, tb) {
                    let j = choose|j: int| #[trigger] first_diff_at(ta, tb, j) && ta[j] < tb[j];
                    assert forall|k: int| 0 <= k < j + 1 implies a[k] == b[k] by {
                        if k > 0 {
                            assert(ta[k - 1] == tb[k - 1]);
                        }
                    }
                    assert(a[j + 1] == ta[j]);
                    assert(first_diff_at(a, b, j + 1));
                    assert(bytes_lt(a, b));
                }
            }
        }
    }
}

} // verus!
