//! Authority verification and derivation-proof core for a token transfer
//! module: decides whether a transfer request is authorized, either by an
//! ambient-verified signing key or by a deterministically derived address,
//! and produces the signing proof handed to the external ledger service.

use vstd::prelude::*;

pub mod derivation;
pub mod dispatch;
pub mod resolver;
pub mod types;

verus! {

/// Byte-exact equality of two 32-byte identities.
pub fn bytes_equal_32(a: &[u8; 32], b: &[u8; 32]) -> (r: bool)
    ensures
        r == (a@ == b@),
{
    let mut i: usize = 0;
    while i < 32
        invariant
            i <= 32,
            forall|j: int| 0 <= j < i ==> a@[j] == b@[j],
        decreases 32 - i,
    {
        if a[i] != b[i] {
            assert(a@[i as int] != b@[i as int]);
            return false;
        }
        i += 1;
    }
    assert(a@ =~= b@);
    true
}

} // verus!
