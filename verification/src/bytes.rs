//! Byte-sequence helpers shared by the orchestrator and the tunnel bridge.

use vstd::prelude::*;

verus! {

/// An exact copy of a byte sequence.
pub fn copy_bytes(src: &Vec<u8>) -> (r: Vec<u8>)
    ensures
        r@ == src@,
{
    let mut r: Vec<u8> = Vec::new();
    let mut i: usize = 0;
    while i < src.len()
        invariant
            i <= src@.len(),
            r@.len() == i,
            forall|k: int| 0 <= k < i ==> r@[k] == #[trigger] src@[k],
        decreases src@.len() - i,
    {
        r.push(src[i]);
        i += 1;
    }
    proof {
        assert(r@ =~= src@);
    }
    r
}

/// Equality of two byte sequences.
pub fn bytes_eq(a: &Vec<u8>, b: &Vec<u8>) -> (r: bool)
    ensures
        r == (a@ == b@),
{
    if a.len() != b.len() {
        return false;
    }
    let mut i: usize = 0;
    while i < a.len()
        invariant
            a@.len() == b@.len(),
            i <= a@.len(),
            forall|k: int| 0 <= k < i ==> a@[k] == #[trigger] b@[k],
        decreases a@.len() - i,
    {
        if a[i] != b[i] {
            return false;
        }
        i += 1;
    }
    proof {
        assert(a@ =~= b@);
    }
    true
}

} // verus!
