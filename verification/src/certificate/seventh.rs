//! The prime 531581.

use crate::primality::is_prime;
use vstd::prelude::*;

verus! {

/// The number is prime.
pub proof fn lemma_prime()
    ensures
        is_prime(531581),
{
    assert forall|d: nat| 1 < d < 531581 implies #[trigger] (531581nat % d) != 0 by {
        let x = d as u32;
        assert(1 < x && x < 531581 ==> 531581u32 % x != 0) by (bit_vector);
    }
}

} // verus!
