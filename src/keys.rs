use vstd::prelude::*;

verus! {

/// A 32-byte public key of the host ledger, held as its bytes.
pub type Pubkey = [u8; 32];

/// A 32-byte digest.
pub type Hash32 = [u8; 32];

/// Byte-wise equality of two 32-byte values (keys or digests).
pub fn bytes32_eq(a: &[u8; 32], b: &[u8; 32]) -> (r: bool)
    ensures
        r == (a@ == b@),
{
    let mut i: usize = 0;
    while i < 32
        invariant
            0 <= i <= 32,
            a@.len() == 32,
            b@.len() == 32,
            forall|j: int| 0 <= j < i ==> a@[j] == b@[j],
        decreases 32 - i,
    {
        if a[i] != b[i] {
            assert(a@[i as int] != b@[i as int]);
            return false;
        }
        i = i + 1;
    }
    assert(a@ =~= b@);
    true
}

} // verus!
