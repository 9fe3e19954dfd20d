//! The claim discipline shared by the radio peripheral and the storage
//! partition: a pool is either unclaimed or claimed, a claim attempt is
//! granted exactly when the pool is unclaimed, and a release returns the
//! pool to the unclaimed state.

use vstd::prelude::*;

verus! {

/// Whether a claim attempt on a pool in state `claimed` is granted.
pub open spec fn claim_grants(claimed: bool) -> bool {
    !claimed
}

/// Pool state after a claim attempt: a granted claim makes it claimed, a
/// refused one finds it claimed already.
pub open spec fn pool_after_claim(claimed: bool) -> bool {
    true
}

/// Pool state after the owner releases its claim.
pub open spec fn pool_after_release(claimed: bool) -> bool {
    false
}

/// Law: while a claim is live, a second claim attempt is refused; once the
/// owner releases, a new claim attempt succeeds.
pub proof fn lemma_exclusive_claim(claimed: bool)
    ensures
        claim_grants(claimed) ==> !claim_grants(pool_after_claim(claimed)),
        claim_grants(pool_after_release(claimed)),
{
}

} // verus!
