//! Laws of the claim discipline, stated over the same spec functions that
//! the registry's contracts use, and proved once for every state and key.
//!
//! The registry serializes claims through one critical section, so racing
//! claims are some interleaving of complete claim operations; the laws here
//! therefore quantify over sequences of claim attempts.

use vstd::prelude::*;

use crate::registry::{after_claim, after_reset, claim_granted};

verus! {

/// The claimed-key set after a sequence of claim attempts, in order.
pub open spec fn after_claims(claimed: Set<Seq<char>>, keys: Seq<Seq<char>>) -> Set<Seq<char>>
    decreases keys.len(),
{
    if keys.len() == 0 {
        claimed
    } else {
        after_claims(after_claim(claimed, keys[0]), keys.drop_first())
    }
}

/// The outcomes, in order, of successive claim attempts for one key.
pub open spec fn claim_outcomes(claimed: Set<Seq<char>>, key: Seq<char>, count: nat) -> Seq<bool>
    decreases count,
{
    if count == 0 {
        Seq::empty()
    } else {
        seq![claim_granted(claimed, key)] + claim_outcomes(
            after_claim(claimed, key),
            key,
            (count - 1) as nat,
        )
    }
}

/// How many of a sequence of claim outcomes were granted.
pub open spec fn granted_count(outcomes: Seq<bool>) -> nat
    decreases outcomes.len(),
{
    if outcomes.len() == 0 {
        0
    } else {
        (if outcomes[0] {
            1nat
        } else {
            0nat
        }) + granted_count(outcomes.drop_first())
    }
}

/// A claimed key stays claimed under further claims of any keys.
proof fn lemma_claims_preserve_membership(
    claimed: Set<Seq<char>>,
    keys: Seq<Seq<char>>,
    key: Seq<char>,
)
    requires
        claimed.contains(key),
    ensures
        after_claims(claimed, keys).contains(key),
    decreases keys.len(),
{
    if keys.len() > 0 {
        lemma_claims_preserve_membership(after_claim(claimed, keys[0]), keys.drop_first(), key);
    }
}

/// Idempotent claim: once a claim for a key has been recorded, no later
/// claim of the same key is granted until a reset, no matter which other
/// keys are claimed in between.
pub proof fn lemma_claim_idempotent(claimed: Set<Seq<char>>, key: Seq<char>, others: Seq<Seq<char>>)
    ensures
        !claim_granted(after_claim(claimed, key), key),
        !claim_granted(after_claims(after_claim(claimed, key), others), key),
{
    lemma_claims_preserve_membership(after_claim(claimed, key), others, key);
}

/// Every claim of a key that is already held is denied.
proof fn lemma_no_grant_while_held(claimed: Set<Seq<char>>, key: Seq<char>, count: nat)
    requires
        claimed.contains(key),
    ensures
        granted_count(claim_outcomes(claimed, key, count)) == 0,
    decreases count,
{
    if count > 0 {
        let outcomes = claim_outcomes(claimed, key, count);
        assert(outcomes.drop_first() =~= claim_outcomes(
            after_claim(claimed, key),
            key,
            (count - 1) as nat,
        ));
        lemma_no_grant_while_held(after_claim(claimed, key), key, (count - 1) as nat);
    }
}

/// There are as many outcomes as claim attempts.
pub proof fn lemma_outcomes_length(claimed: Set<Seq<char>>, key: Seq<char>, count: nat)
    ensures
        claim_outcomes(claimed, key, count).len() == count,
    decreases count,
{
    if count > 0 {
        lemma_outcomes_length(after_claim(claimed, key), key, (count - 1) as nat);
    }
}

/// Exclusivity: among any number of successive claims of one key, exactly
/// one is granted -- the first -- when the key starts out unclaimed, and
/// none is granted when it starts out claimed.
pub proof fn lemma_claim_exclusive(claimed: Set<Seq<char>>, key: Seq<char>, count: nat)
    ensures
        granted_count(claim_outcomes(claimed, key, count)) == (
        if count > 0 && claim_granted(claimed, key) {
            1nat
        } else {
            0nat
        }),
        count > 0 ==> claim_outcomes(claimed, key, count)[0] == claim_granted(claimed, key),
{
    if count > 0 {
        let outcomes = claim_outcomes(claimed, key, count);
        assert(outcomes.drop_first() =~= claim_outcomes(
            after_claim(claimed, key),
            key,
            (count - 1) as nat,
        ));
        lemma_no_grant_while_held(after_claim(claimed, key), key, (count - 1) as nat);
    }
}

/// Reset restores eligibility: a key whose claim was granted (and so
/// recorded) becomes claimable again after a reset.
pub proof fn lemma_reset_restores_eligibility(claimed: Set<Seq<char>>, key: Seq<char>)
    ensures
        claim_granted(after_reset(after_claim(claimed, key)), key),
{
}

} // verus!
