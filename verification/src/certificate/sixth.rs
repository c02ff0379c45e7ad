//! The prime 1224481.

use crate::primality::is_prime;
use vstd::prelude::*;

verus! {

/// The number is prime.
pub proof fn lemma_prime()
    ensures
        is_prime(1224481),
{
    assert forall|d: nat| 1 < d < 1224481 implies #[trigger] (1224481nat % d) != 0 by {
        let x = d as u32;
        assert(1 < x && x < 1224481 ==> 1224481u32 % x != 0) by (bit_vector);
    }
}

} // verus!
