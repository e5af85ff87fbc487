use vstd::prelude::*;

use vstd::string::StringSliceAdditionalSpecFns;

use crate::keys::{bytes32_eq, Hash32};

verus! {

/// The SHA-256 digest of a byte string.
pub uninterp spec fn sha256_of(data: Seq<u8>) -> Seq<u8>;

/// Relies on anchor_lang::solana_program::hash::hash: the SHA-256 digest of
/// `data`, which depends on the bytes alone.
#[verifier::external_body]
fn sha256(data: &[u8]) -> (r: Hash32)
    ensures
        r@ == sha256_of(data@),
{
    anchor_lang::solana_program::hash::hash(data).to_bytes()
}

/// Views of a sequence of 32-byte hashes as byte strings.
pub open spec fn hashes_view(hashes: Seq<Hash32>) -> Seq<Seq<u8>> {
    hashes.map_values(|h: Hash32| h@)
}

/// The 32 zero bytes: the root of an empty tree.
pub open spec fn zero_hash() -> Seq<u8> {
    Seq::new(32, |i: int| 0u8)
}

/// An inner node: the hash of the left child followed by the right child.
pub open spec fn node_hash(left: Seq<u8>, right: Seq<u8>) -> Seq<u8> {
    sha256_of(left + right)
}

/// The level above `level`: adjacent pairs are hashed left to right, and an odd
/// trailing node is carried up unchanged.
pub open spec fn parent_level(level: Seq<Seq<u8>>) -> Seq<Seq<u8>> {
    Seq::new(
        ((level.len() + 1) / 2) as nat,
        |k: int|
            if 2 * k + 1 < level.len() {
                node_hash(level[2 * k], level[2 * k + 1])
            } else {
                level[2 * k]
            },
    )
}

/// The Merkle root of a sequence of leaves.
pub open spec fn merkle_root(leaves: Seq<Seq<u8>>) -> Seq<u8>
    decreases leaves.len(),
{
    if leaves.len() == 0 {
        zero_hash()
    } else if leaves.len() == 1 {
        leaves[0]
    } else {
        merkle_root(parent_level(leaves))
    }
}

/// Hash of two children, left then right.
pub fn hash_node(left: &Hash32, right: &Hash32) -> (r: Hash32)
    ensures
        r@ == node_hash(left@, right@),
{
    let mut combined: Vec<u8> = Vec::with_capacity(64);
    let mut i: usize = 0;
    while i < 32
        invariant
            0 <= i <= 32,
            left@.len() == 32,
            combined@ =~= left@.subrange(0, i as int),
        decreases 32 - i,
    {
        combined.push(left[i]);
        i = i + 1;
    }
    let mut j: usize = 0;
    while j < 32
        invariant
            0 <= j <= 32,
            left@.len() == 32,
            right@.len() == 32,
            combined@ =~= left@ + right@.subrange(0, j as int),
        decreases 32 - j,
    {
        combined.push(right[j]);
        j = j + 1;
    }
    assert(combined@ =~= left@ + right@);
    sha256(combined.as_slice())
}

/// Computes the level above `level` (see `parent_level`).
fn next_level(level: &Vec<Hash32>) -> (r: Vec<Hash32>)
    ensures
        r@.len() == (level@.len() + 1) / 2,
        hashes_view(r@) =~= parent_level(hashes_view(level@)),
{
    let ghost lv = hashes_view(level@);
    let n = level.len();
    let half: usize = n / 2 + n % 2;
    let mut next: Vec<Hash32> = Vec::new();
    let mut k: usize = 0;
    while k < half
        invariant
            lv == hashes_view(level@),
            n == level@.len(),
            half == (n + 1) / 2,
            k <= half,
            next@.len() == k,
            forall|j: int|
                0 <= j < next@.len() ==> #[trigger] next@[j]@ == parent_level(lv)[j],
        decreases half - k,
    {
        let i: usize = 2 * k;
        if i + 1 < n {
            let h = hash_node(&level[i], &level[i + 1]);
            next.push(h);
        } else {
            next.push(level[i]);
        }
        k = k + 1;
    }
    assert(hashes_view(next@) =~= parent_level(lv));
    next
}

/// Merkle root of the leaves: all zeros for no leaf, the leaf itself for one,
/// else the root of the level above, built iteratively.
pub fn calculate_merkle_root(leaves: &[Hash32]) -> (r: Hash32)
    ensures
        r@ == merkle_root(hashes_view(leaves@)),
{
    if leaves.len() == 0 {
        let z: Hash32 = [0u8; 32];
        assert(z@ =~= zero_hash());
        return z;
    }
    let mut level: Vec<Hash32> = Vec::new();
    let mut i: usize = 0;
    while i < leaves.len()
        invariant
            i <= leaves.len(),
            level@ =~= leaves@.subrange(0, i as int),
        decreases leaves.len() - i,
    {
        level.push(leaves[i]);
        i = i + 1;
    }
    assert(level@ =~= leaves@);
    while level.len() > 1
        invariant
            level@.len() >= 1,
            merkle_root(hashes_view(level@)) == merkle_root(hashes_view(leaves@)),
        decreases level.len(),
    {
        let next = next_level(&level);
        level = next;
    }
    level[0]
}

/// One step of a proof: side 0 puts the sibling on the right of the running
/// hash, any other side puts it on the left.
pub open spec fn proof_step(current: Seq<u8>, sibling: Seq<u8>, side: u8) -> Seq<u8> {
    if side == 0 {
        node_hash(current, sibling)
    } else {
        node_hash(sibling, current)
    }
}

/// The hash reached from `current` by the proof steps in order.
pub open spec fn fold_proof(current: Seq<u8>, proof: Seq<Seq<u8>>, sides: Seq<u8>) -> Seq<u8>
    decreases proof.len(),
{
    if proof.len() == 0 || sides.len() == 0 {
        current
    } else {
        fold_proof(
            proof_step(current, proof[0], sides[0]),
            proof.drop_first(),
            sides.drop_first(),
        )
    }
}

/// Whether a proof, with one side per sibling, leads from `leaf` to `root`.
pub open spec fn proof_verifies(
    proof: Seq<Seq<u8>>,
    root: Seq<u8>,
    leaf: Seq<u8>,
    sides: Seq<u8>,
) -> bool {
    proof.len() == sides.len() && fold_proof(leaf, proof, sides) == root
}

/// Checks an inclusion proof: false when there are not as many sides as
/// siblings, else whether folding the siblings onto the leaf gives the root.
pub fn verify_merkle_proof(
    proof: &[Hash32],
    root: &Hash32,
    leaf: &Hash32,
    indexes: &[u8],
) -> (r: bool)
    ensures
        r == proof_verifies(hashes_view(proof@), root@, leaf@, indexes@),
{
    if proof.len() != indexes.len() {
        return false;
    }
    let ghost pv = hashes_view(proof@);
    let mut current: Hash32 = *leaf;
    let mut i: usize = 0;
    assert(indexes@ =~= indexes@.subrange(0, indexes@.len() as int));
    assert(pv =~= pv.subrange(0, pv.len() as int));
    while i < proof.len()
        invariant
            pv == hashes_view(proof@),
            proof@.len() == indexes@.len(),
            i <= proof@.len(),
            fold_proof(
                current@,
                pv.subrange(i as int, pv.len() as int),
                indexes@.subrange(i as int, indexes@.len() as int),
            ) == fold_proof(leaf@, pv, indexes@),
        decreases proof.len() - i,
    {
        let ghost rest = pv.subrange(i as int, pv.len() as int);
        let ghost rest_sides = indexes@.subrange(i as int, indexes@.len() as int);
        assert(rest.drop_first() =~= pv.subrange(i + 1, pv.len() as int));
        assert(rest_sides.drop_first() =~= indexes@.subrange(i + 1, indexes@.len() as int));
        if indexes[i] == 0 {
            current = hash_node(&current, &proof[i]);
        } else {
            current = hash_node(&proof[i], &current);
        }
        i = i + 1;
    }
    assert(pv.subrange(i as int, pv.len() as int) =~= Seq::<Seq<u8>>::empty());
    assert(fold_proof(current@, Seq::<Seq<u8>>::empty(), indexes@.subrange(i as int, indexes@.len() as int)) == current@);
    bytes32_eq(&current, root)
}

/// The bytes of a 64-bit integer, least significant first.
pub open spec fn le_bytes_u64(x: u64) -> Seq<u8> {
    Seq::new(8, |i: int| (x >> ((8 * i) as u64)) as u8)
}

/// The bytes hashed into a reserve leaf: the deposit id, then the amount and
/// the timestamp, each in little-endian order.
pub open spec fn reserve_leaf_bytes(deposit_id: Seq<u8>, amount: u64, timestamp: i64) -> Seq<u8> {
    deposit_id + le_bytes_u64(amount) + le_bytes_u64(timestamp as u64)
}

/// Appends the little-endian bytes of `x` to `out`.
fn push_le_bytes_u64(out: &mut Vec<u8>, x: u64)
    ensures
        final(out)@ == old(out)@ + le_bytes_u64(x),
{
    let ghost start = old(out)@;
    let mut i: u64 = 0;
    while i < 8
        invariant
            i <= 8,
            out@ =~= start + le_bytes_u64(x).subrange(0, i as int),
        decreases 8 - i,
    {
        out.push((x >> (8 * i)) as u8);
        i = i + 1;
    }
    assert(le_bytes_u64(x).subrange(0, 8) =~= le_bytes_u64(x));
}

/// The leaf of the reserve tree for one deposit.
pub fn create_reserve_leaf(deposit_id: &str, amount: u64, timestamp: i64) -> (r: Hash32)
    ensures
        r@ == sha256_of(reserve_leaf_bytes(deposit_id.spec_bytes(), amount, timestamp)),
{
    let id = deposit_id.as_bytes();
    let mut data: Vec<u8> = Vec::new();
    let mut i: usize = 0;
    while i < id.len()
        invariant
            i <= id@.len(),
            id@ == deposit_id.spec_bytes(),
            data@ =~= id@.subrange(0, i as int),
        decreases id.len() - i,
    {
        data.push(id[i]);
        i = i + 1;
    }
    assert(data@ =~= deposit_id.spec_bytes());
    push_le_bytes_u64(&mut data, amount);
    push_le_bytes_u64(&mut data, timestamp as u64);
    sha256(data.as_slice())
}

/// The siblings met on the way from node `i` of `level` up to the root; a node
/// carried up unchanged meets none on that level.
pub open spec fn proof_siblings(level: Seq<Seq<u8>>, i: int) -> Seq<Seq<u8>>
    decreases level.len(),
{
    if level.len() <= 1 {
        Seq::empty()
    } else {
        let up = proof_siblings(parent_level(level), i / 2);
        if i % 2 == 1 {
            seq![level[i - 1]] + up
        } else if i + 1 < level.len() {
            seq![level[i + 1]] + up
        } else {
            up
        }
    }
}

/// The sides that go with `proof_siblings`: 1 where the sibling is on the
/// left, 0 where it is on the right.
pub open spec fn proof_sides(level: Seq<Seq<u8>>, i: int) -> Seq<u8>
    decreases level.len(),
{
    if level.len() <= 1 {
        Seq::empty()
    } else {
        let up = proof_sides(parent_level(level), i / 2);
        if i % 2 == 1 {
            seq![1u8] + up
        } else if i + 1 < level.len() {
            seq![0u8] + up
        } else {
            up
        }
    }
}

proof fn lemma_path_reaches_root(level: Seq<Seq<u8>>, i: int)
    requires
        0 <= i < level.len(),
    ensures
        proof_siblings(level, i).len() == proof_sides(level, i).len(),
        fold_proof(level[i], proof_siblings(level, i), proof_sides(level, i)) == merkle_root(
            level,
        ),
    decreases level.len(),
{
    if level.len() > 1 {
        let p = parent_level(level);
        lemma_path_reaches_root(p, i / 2);
        let up = proof_siblings(p, i / 2);
        let up_sides = proof_sides(p, i / 2);
        let sib = proof_siblings(level, i);
        let sides = proof_sides(level, i);
        if i % 2 == 1 {
            assert(sib.drop_first() =~= up);
            assert(sides.drop_first() =~= up_sides);
            assert(proof_step(level[i], sib[0], sides[0]) == p[i / 2]);
        } else if i + 1 < level.len() {
            assert(sib.drop_first() =~= up);
            assert(sides.drop_first() =~= up_sides);
            assert(proof_step(level[i], sib[0], sides[0]) == p[i / 2]);
        } else {
            assert(level[i] == p[i / 2]);
        }
    }
}

/// The root depends on the leaves alone: equal leaf sequences give equal roots.
/// That a reordering changes the root rests on the hash being collision
/// resistant, which no proof here can draw on.
pub proof fn lemma_root_deterministic(leaves: Seq<Hash32>, others: Seq<Hash32>)
    requires
        hashes_view(leaves) == hashes_view(others),
    ensures
        merkle_root(hashes_view(leaves)) == merkle_root(hashes_view(others)),
{
}

/// Swapping two distinct leaves keeps the root only through a hash collision:
/// two different inputs with the same digest.
pub proof fn lemma_swap_changes_root_unless_collision(a: Hash32, b: Hash32)
    requires
        a@ != b@,
    ensures
        merkle_root(hashes_view(seq![a, b])) == merkle_root(hashes_view(seq![b, a])) ==> {
            &&& a@ + b@ != b@ + a@
            &&& sha256_of(a@ + b@) == sha256_of(b@ + a@)
        },
{
    let ab = hashes_view(seq![a, b]);
    let ba = hashes_view(seq![b, a]);
    assert(parent_level(ab) =~= seq![node_hash(a@, b@)]);
    assert(parent_level(ba) =~= seq![node_hash(b@, a@)]);
    assert(merkle_root(ab) == merkle_root(parent_level(ab)));
    assert(merkle_root(ba) == merkle_root(parent_level(ba)));
    assert((a@ + b@).subrange(0, 32) =~= a@);
    assert((b@ + a@).subrange(0, 32) =~= b@);
}

/// A collision-free hash: different 64-byte inputs give different digests,
/// and every digest has 32 bytes.
pub open spec fn collision_free() -> bool {
    &&& forall|x: Seq<u8>, y: Seq<u8>|
        #![trigger sha256_of(x), sha256_of(y)]
        x.len() == 64 && y.len() == 64 && sha256_of(x) == sha256_of(y) ==> x == y
    &&& forall|x: Seq<u8>| #[trigger] sha256_of(x).len() == 32
}

/// Whether every node of a level has 32 bytes.
pub open spec fn all_32_bytes(level: Seq<Seq<u8>>) -> bool {
    forall|k: int| 0 <= k < level.len() ==> #[trigger] level[k].len() == 32
}

proof fn lemma_root_determines_level(l1: Seq<Seq<u8>>, l2: Seq<Seq<u8>>)
    requires
        collision_free(),
        l1.len() == l2.len(),
        l1.len() >= 1,
        all_32_bytes(l1),
        all_32_bytes(l2),
        merkle_root(l1) == merkle_root(l2),
    ensures
        l1 == l2,
    decreases l1.len(),
{
    let n = l1.len();
    if n == 1 {
        assert(l1 =~= l2);
    } else {
        let parent_a = parent_level(l1);
        let parent_b = parent_level(l2);
        assert forall|k: int| 0 <= k < parent_a.len() implies #[trigger] parent_a[k].len() == 32 by {
            if 2 * k + 1 < n {
                assert(parent_a[k] == sha256_of(l1[2 * k] + l1[2 * k + 1]));
            }
        }
        assert forall|k: int| 0 <= k < parent_b.len() implies #[trigger] parent_b[k].len() == 32 by {
            if 2 * k + 1 < n {
                assert(parent_b[k] == sha256_of(l2[2 * k] + l2[2 * k + 1]));
            }
        }
        lemma_root_determines_level(parent_a, parent_b);
        assert forall|k: int| 0 <= k < n implies l1[k] == l2[k] by {
            let m = k / 2;
            assert(parent_a[m] == parent_b[m]);
            if 2 * m + 1 < n {
                let x = l1[2 * m] + l1[2 * m + 1];
                let y = l2[2 * m] + l2[2 * m + 1];
                assert(sha256_of(x) == sha256_of(y));
                assert(x == y);
                assert(x.subrange(0, 32) =~= l1[2 * m]);
                assert(y.subrange(0, 32) =~= l2[2 * m]);
                assert(x.subrange(32, 64) =~= l1[2 * m + 1]);
                assert(y.subrange(32, 64) =~= l2[2 * m + 1]);
            }
        }
        assert(l1 =~= l2);
    }
}

/// Order sensitivity, for a collision-free hash: two different sequences of
/// leaves of one length have different roots. So a reordering of the leaves
/// that changes the sequence changes the root.
pub proof fn lemma_different_leaves_different_root(leaves: Seq<Hash32>, others: Seq<Hash32>)
    requires
        collision_free(),
        leaves.len() == others.len(),
        hashes_view(leaves) != hashes_view(others),
    ensures
        merkle_root(hashes_view(leaves)) != merkle_root(hashes_view(others)),
{
    let l1 = hashes_view(leaves);
    let l2 = hashes_view(others);
    if l1.len() == 0 {
        assert(l1 =~= l2);
    } else if merkle_root(l1) == merkle_root(l2) {
        lemma_root_determines_level(l1, l2);
    }
}

/// Round trip of inclusion proofs: for every leaf of a tree, the siblings and
/// sides read off the tree prove that leaf against the tree's root.
pub proof fn lemma_proof_round_trip(leaves: Seq<Hash32>, i: int)
    requires
        0 <= i < leaves.len(),
    ensures
        proof_verifies(
            proof_siblings(hashes_view(leaves), i),
            merkle_root(hashes_view(leaves)),
            leaves[i]@,
            proof_sides(hashes_view(leaves), i),
        ),
{
    lemma_path_reaches_root(hashes_view(leaves), i);
}

/// A proof whose sides do not match its siblings one for one never verifies.
pub proof fn lemma_mismatched_proof_fails(
    proof: Seq<Hash32>,
    root: Hash32,
    leaf: Hash32,
    sides: Seq<u8>,
)
    requires
        proof.len() != sides.len(),
    ensures
        !proof_verifies(hashes_view(proof), root@, leaf@, sides),
{
}

/// The root of no leaf is 32 zero bytes, and the root of one leaf is that leaf.
pub proof fn lemma_root_of_empty_and_single(x: Hash32)
    ensures
        merkle_root(hashes_view(Seq::empty())) == zero_hash(),
        merkle_root(hashes_view(seq![x])) == x@,
{
}

/// With three leaves the third is carried up unchanged, so the root is the
/// hash of the first pair's node and the third leaf.
pub proof fn lemma_root_of_three(a: Hash32, b: Hash32, c: Hash32)
    ensures
        parent_level(hashes_view(seq![a, b, c])) == seq![node_hash(a@, b@), c@],
        merkle_root(hashes_view(seq![a, b, c])) == node_hash(node_hash(a@, b@), c@),
{
    let l = hashes_view(seq![a, b, c]);
    let p = parent_level(l);
    assert(p =~= seq![node_hash(a@, b@), c@]);
    let q = parent_level(p);
    assert(q =~= seq![node_hash(node_hash(a@, b@), c@)]);
    assert(merkle_root(l) == merkle_root(p));
    assert(merkle_root(p) == merkle_root(q));
}

} // verus!
