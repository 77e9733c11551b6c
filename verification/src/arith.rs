//! Powers of two, which the delays between attempts and the values of
//! binary numbers are made of.

use vstd::prelude::*;

verus! {

/// Two to the power `n`.
pub open spec fn pow2(n: nat) -> nat
    decreases n,
{
    if n == 0 {
        1
    } else {
        2 * pow2((n - 1) as nat)
    }
}

/// Powers of two grow with the exponent and are never zero.
pub proof fn lemma_pow2_grows(low: nat, high: nat)
    requires
        low <= high,
    ensures
        1 <= pow2(low) <= pow2(high),
    decreases high,
{
    if high == 0 {
    } else if low == high {
        lemma_pow2_grows(0, (high - 1) as nat);
    } else {
        lemma_pow2_grows(low, (high - 1) as nat);
    }
}

} // verus!
