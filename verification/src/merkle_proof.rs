//! Membership proofs against a Merkle root whose inner nodes hash the two
//! children in ascending byte order.

use vstd::prelude::*;
use crate::crypto::{keccak_hashv, keccak_hashv_digest, slices_view};

verus! {

/// `a` and `b` hold the same bytes below position `i`.
pub open spec fn agree_below(a: Seq<u8>, b: Seq<u8>, i: int) -> bool {
    forall|j: int| 0 <= j < i ==> a[j] == b[j]
}

/// `a` comes strictly before `b` in lexicographic byte order: at the first
/// position where they differ, `a` holds the smaller byte.
pub open spec fn lex_lt(a: Seq<u8>, b: Seq<u8>) -> bool {
    exists|i: int| 0 <= i < a.len() && i < b.len() && agree_below(a, b, i) && a[i] < b[i]
}

/// Lexicographic `<=` on byte strings of equal length (the order of `<=` on
/// `[u8; 32]`).
pub open spec fn lex_le(a: Seq<u8>, b: Seq<u8>) -> bool {
    a == b || lex_lt(a, b)
}

/// The parent of two nodes: the digest of the smaller child followed by the
/// larger one.
pub open spec fn node_hash(a: Seq<u8>, b: Seq<u8>) -> Seq<u8> {
    if lex_le(a, b) {
        keccak_hashv_digest(seq![a, b])
    } else {
        keccak_hashv_digest(seq![b, a])
    }
}

/// The root that a proof leads to from a leaf: each proof element in turn is
/// combined with the node computed so far.
pub open spec fn proof_root(proof: Seq<Seq<u8>>, leaf: Seq<u8>) -> Seq<u8>
    decreases proof.len(),
{
    if proof.len() == 0 {
        leaf
    } else {
        node_hash(proof_root(proof.drop_last(), leaf), proof.last())
    }
}

/// The byte strings of a list of 32-byte nodes.
pub open spec fn nodes_view(nodes: Seq<[u8; 32]>) -> Seq<Seq<u8>> {
    nodes.map_values(|n: [u8; 32]| n@)
}

/// Whether `a` and `b` hold the same 32 bytes.
pub fn bytes32_eq(a: &[u8; 32], b: &[u8; 32]) -> (equal: bool)
    ensures
        equal == (a@ == b@),
{
    let mut i: usize = 0;
    while i < 32
        invariant
            0 <= i <= 32,
            a@.len() == 32,
            b@.len() == 32,
            agree_below(a@, b@, i as int),
        decreases 32 - i,
    {
        if a[i] != b[i] {
            return false;
        }
        i = i + 1;
    }
    assert(a@ =~= b@);
    true
}

/// Whether `a <= b` in lexicographic byte order.
pub fn bytes32_le(a: &[u8; 32], b: &[u8; 32]) -> (le: bool)
    ensures
        le == lex_le(a@, b@),
{
    let mut i: usize = 0;
    while i < 32
        invariant
            0 <= i <= 32,
            a@.len() == 32,
            b@.len() == 32,
            agree_below(a@, b@, i as int),
        decreases 32 - i,
    {
        if a[i] != b[i] {
            if a[i] < b[i] {
                assert(lex_lt(a@, b@));
                return true;
            } else {
                assert(a@ != b@) by {
                    assert(a@[i as int] != b@[i as int]);
                }
                assert(!lex_lt(a@, b@)) by {
                    if lex_lt(a@, b@) {
                        let k = choose|k: int|
                            0 <= k < a@.len() && k < b@.len() && agree_below(a@, b@, k)
                                && a@[k] < b@[k];
                        if k < i {
                        } else if k == i as int {
                        } else {
                            assert(a@[i as int] == b@[i as int]);
                        }
                    }
                }
                return false;
            }
        }
        i = i + 1;
    }
    assert(a@ =~= b@);
    true
}

/// The parent of two nodes: Keccak-256 of the smaller one followed by the
/// larger one.
pub fn hash_pair(a: &[u8; 32], b: &[u8; 32]) -> (parent: [u8; 32])
    ensures
        parent@ == node_hash(a@, b@),
{
    if bytes32_le(a, b) {
        let parts: [&[u8]; 2] = [a.as_slice(), b.as_slice()];
        let slice = parts.as_slice();
        assert(slices_view(slice@) =~= seq![a@, b@]);
        let digest = keccak_hashv(slice);
        digest
    } else {
        let parts: [&[u8]; 2] = [b.as_slice(), a.as_slice()];
        let slice = parts.as_slice();
        assert(slices_view(slice@) =~= seq![b@, a@]);
        let digest = keccak_hashv(slice);
        digest
    }
}

/// The root that `proof` leads to from `leaf`: each element in turn is hashed
/// together with the node computed so far, the smaller of the two first.
pub fn process_proof(proof: &Vec<[u8; 32]>, leaf: &[u8; 32]) -> (root: [u8; 32])
    ensures
        root@ == proof_root(nodes_view(proof@), leaf@),
{
    let mut computed: [u8; 32] = *leaf;
    let mut i: usize = 0;
    while i < proof.len()
        invariant
            0 <= i <= proof@.len(),
            computed@ == proof_root(nodes_view(proof@).take(i as int), leaf@),
        decreases proof@.len() - i,
    {
        let element: [u8; 32] = proof[i];
        let next = hash_pair(&computed, &element);
        assert(nodes_view(proof@).take(i + 1).drop_last() =~= nodes_view(proof@).take(i as int));
        computed = next;
        i = i + 1;
    }
    assert(nodes_view(proof@).take(i as int) =~= nodes_view(proof@));
    computed
}

/// Whether `proof` shows that `leaf` belongs to the tree with root `root`.
pub fn verify(proof: Vec<[u8; 32]>, root: [u8; 32], leaf: [u8; 32]) -> (valid: bool)
    ensures
        valid == (proof_root(nodes_view(proof@), leaf@) == root@),
{
    let computed = process_proof(&proof, &leaf);
    bytes32_eq(&computed, &root)
}

/// Two byte strings of equal length that differ have a first position of
/// difference.
proof fn lemma_first_difference(a: Seq<u8>, b: Seq<u8>, k: int)
    requires
        a.len() == b.len(),
        a != b,
        0 <= k <= a.len(),
        agree_below(a, b, k),
    ensures
        exists|i: int| k <= i < a.len() && agree_below(a, b, i) && a[i] != b[i],
    decreases a.len() - k,
{
    if k == a.len() {
        assert(a =~= b);
    } else if a[k] != b[k] {
        assert(k <= k < a.len() && agree_below(a, b, k) && a[k] != b[k]);
    } else {
        assert(agree_below(a, b, k + 1));
        lemma_first_difference(a, b, k + 1);
    }
}

/// Lexicographic order on byte strings of one length is a strict total
/// order: of two different strings exactly one comes first.
pub proof fn lemma_lex_total(a: Seq<u8>, b: Seq<u8>)
    requires
        a.len() == b.len(),
    ensures
        a != b ==> (lex_lt(a, b) || lex_lt(b, a)),
        !(lex_lt(a, b) && lex_lt(b, a)),
        lex_lt(a, b) ==> a != b,
{
    if a != b {
        lemma_first_difference(a, b, 0);
        let i = choose|i: int| 0 <= i < a.len() && agree_below(a, b, i) && a[i] != b[i];
        if a[i] < b[i] {
            assert(lex_lt(a, b));
        } else {
            assert(agree_below(b, a, i));
            assert(lex_lt(b, a));
        }
    }
    if lex_lt(a, b) && lex_lt(b, a) {
        let i = choose|i: int| 0 <= i < a.len() && i < b.len() && agree_below(a, b, i) && a[i] < b[i];
        let j = choose|j: int| 0 <= j < b.len() && j < a.len() && agree_below(b, a, j) && b[j] < a[j];
        if i < j {
            assert(b[i] == a[i]);
        } else if j < i {
            assert(a[j] == b[j]);
        }
    }
    if lex_lt(a, b) {
        let i = choose|i: int| 0 <= i < a.len() && i < b.len() && agree_below(a, b, i) && a[i] < b[i];
        assert(a[i] != b[i]);
    }
}

/// The order of two siblings does not matter: both orders give the same
/// parent.
pub proof fn law_sibling_order(a: Seq<u8>, b: Seq<u8>)
    requires
        a.len() == b.len(),
    ensures
        node_hash(a, b) == node_hash(b, a),
{
    lemma_lex_total(a, b);
    if a != b {
        assert(b != a);
    }
}

/// An empty proof shows exactly the membership of the root itself.
pub proof fn law_empty_proof(root: Seq<u8>, leaf: Seq<u8>)
    ensures
        (proof_root(Seq::<Seq<u8>>::empty(), leaf) == root) <==> (leaf == root),
{
}

/// In a tree of two leaves, each leaf is proved a member by the other leaf
/// alone, and both proofs lead to the same root.
pub proof fn law_two_leaf_tree(a: Seq<u8>, b: Seq<u8>)
    requires
        a.len() == b.len(),
    ensures
        proof_root(seq![b], a) == node_hash(a, b),
        proof_root(seq![a], b) == node_hash(a, b),
{
    law_sibling_order(a, b);
    let to_a: Seq<Seq<u8>> = seq![b];
    let to_b: Seq<Seq<u8>> = seq![a];
    assert(to_a.drop_last() =~= Seq::<Seq<u8>>::empty());
    assert(to_b.drop_last() =~= Seq::<Seq<u8>>::empty());
    assert(proof_root(to_a.drop_last(), a) == a);
    assert(proof_root(to_b.drop_last(), b) == b);
    assert(to_a.last() == b);
    assert(to_b.last() == a);
}

/// Proofs compose: following `first` and then `second` from a leaf ends where
/// `second` ends when it starts from the node that `first` reaches.
pub proof fn law_proof_composition(first: Seq<Seq<u8>>, second: Seq<Seq<u8>>, leaf: Seq<u8>)
    ensures
        proof_root(first + second, leaf) == proof_root(second, proof_root(first, leaf)),
    decreases second.len(),
{
    if second.len() == 0 {
        assert(first + second =~= first);
    } else {
        assert((first + second).drop_last() =~= first + second.drop_last());
        assert((first + second).last() == second.last());
        law_proof_composition(first, second.drop_last(), leaf);
    }
}

/// The smaller child is hashed first. Where `a` and `b` first differ at `i`,
/// the parent is the digest of `a` followed by `b` if `a` holds the smaller
/// byte there, and of `b` followed by `a` otherwise.
pub proof fn law_smaller_child_first(a: Seq<u8>, b: Seq<u8>, i: int)
    requires
        a.len() == b.len(),
        0 <= i < a.len(),
        forall|j: int| 0 <= j < i ==> a[j] == b[j],
    ensures
        a[i] < b[i] ==> node_hash(a, b) == keccak_hashv_digest(seq![a, b]),
        b[i] < a[i] ==> node_hash(a, b) == keccak_hashv_digest(seq![b, a]),
{
    if a[i] < b[i] {
        assert(agree_below(a, b, i));
        assert(lex_lt(a, b));
    }
    if b[i] < a[i] {
        assert(agree_below(b, a, i));
        assert(lex_lt(b, a));
        lemma_lex_total(a, b);
        assert(a != b) by {
            assert(a[i] != b[i]);
        }
    }
}

/// Two equal children are hashed one after the other.
pub proof fn law_equal_children(a: Seq<u8>)
    ensures
        node_hash(a, a) == keccak_hashv_digest(seq![a, a]),
{
}

/// In a tree of four leaves, the first two leaves are each proved members by
/// a proof of two elements: the other leaf of their pair, then the parent of
/// the other pair; so are the last two wherever the two inner nodes are of
/// one length.
pub proof fn law_four_leaf_tree(a: Seq<u8>, b: Seq<u8>, c: Seq<u8>, d: Seq<u8>)
    requires
        a.len() == b.len(),
        c.len() == d.len(),
    ensures
        proof_root(seq![b, node_hash(c, d)], a) == node_hash(node_hash(a, b), node_hash(c, d)),
        proof_root(seq![a, node_hash(c, d)], b) == node_hash(node_hash(a, b), node_hash(c, d)),
        node_hash(a, b).len() == node_hash(c, d).len() ==> {
            &&& proof_root(seq![d, node_hash(a, b)], c) == node_hash(node_hash(a, b), node_hash(c, d))
            &&& proof_root(seq![c, node_hash(a, b)], d) == node_hash(node_hash(a, b), node_hash(c, d))
        },
{
    let ab = node_hash(a, b);
    let cd = node_hash(c, d);
    law_two_leaf_tree(a, b);
    law_two_leaf_tree(c, d);
    law_proof_composition(seq![b], seq![cd], a);
    law_proof_composition(seq![a], seq![cd], b);
    law_proof_composition(seq![d], seq![ab], c);
    law_proof_composition(seq![c], seq![ab], d);
    assert(seq![b] + seq![cd] =~= seq![b, cd]);
    assert(seq![a] + seq![cd] =~= seq![a, cd]);
    assert(seq![d] + seq![ab] =~= seq![d, ab]);
    assert(seq![c] + seq![ab] =~= seq![c, ab]);
    let one: Seq<Seq<u8>> = seq![cd];
    assert(one.drop_last() =~= Seq::<Seq<u8>>::empty());
    assert(proof_root(one.drop_last(), ab) == ab);
    assert(one.last() == cd);
    assert(proof_root(one, ab) == node_hash(ab, cd));
    let other: Seq<Seq<u8>> = seq![ab];
    assert(other.drop_last() =~= Seq::<Seq<u8>>::empty());
    assert(proof_root(other.drop_last(), cd) == cd);
    assert(other.last() == ab);
    assert(proof_root(other, cd) == node_hash(cd, ab));
    if ab.len() == cd.len() {
        law_sibling_order(cd, ab);
    }
}

} // verus!
