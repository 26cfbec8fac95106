//! Text as the engines take it: bytes that end at the first zero byte.

use vstd::prelude::*;

verus! {

/// Whether `bytes` can be handed to an engine as they are: an engine reads a
/// string up to its first zero byte, so the bytes must hold none.
pub open spec fn representable(bytes: Seq<u8>) -> bool {
    forall|i: int| 0 <= i < bytes.len() ==> bytes[i] != 0
}

pub fn is_representable(bytes: &[u8]) -> (r: bool)
    ensures
        r == representable(bytes@),
{
    let n: usize = bytes.len();
    let mut i: usize = 0;
    while i < n
        invariant
            n == bytes@.len(),
            i <= n,
            forall|j: int| 0 <= j < i ==> bytes@[j] != 0,
        decreases n - i,
    {
        if bytes[i] == 0 {
            return false;
        }
        i = i + 1;
    }
    true
}

} // verus!
