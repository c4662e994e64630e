//! Addresses and hashes: 32 bytes each.

use vstd::prelude::*;

verus! {

/// The address of an account, a tree or an asset.
pub type Pubkey = [u8; 32];

/// Whether two addresses hold the same bytes.
pub fn same_key(a: &Pubkey, b: &Pubkey) -> (same: bool)
    ensures
        same == (*a == *b),
{
    let mut i: usize = 0;
    while i < 32
        invariant
            0 <= i <= 32,
            forall|k: int| 0 <= k < i ==> a@[k] == b@[k],
        decreases 32 - i,
    {
        if a[i] != b[i] {
            return false;
        }
        i += 1;
    }
    assert(*a =~= *b);
    true
}

} // verus!
