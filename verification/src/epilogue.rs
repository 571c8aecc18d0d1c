//! Epilogue validation: compare the output root this system recomputed at the
//! final safe head against the claimed one, and turn the comparison into the
//! run's distinguished verdict.

use vstd::prelude::*;

use crate::types::{Bytes32, ClaimRecord, L2BlockId};

verus! {

/// Verdict of the epilogue comparison. A mismatch is the canonical "claim
/// refuted" outcome and is kept apart from every infrastructure error.
#[derive(Clone, Copy, Debug)]
pub enum EpilogueOutcome {
    /// The recomputed root equals the claimed one: the claim record, now
    /// verified, is returned unchanged.
    Verified { claim: ClaimRecord },
    /// The recomputed root refutes the claim; the verdict names the block it
    /// was reached at, the root the claim promised and the root obtained.
    Mismatch { number: u64, claimed: Bytes32, computed: Bytes32 },
}

/// What the epilogue decides, for every claim and computed root.
pub open spec fn epilogue_spec(
    claim: ClaimRecord,
    safe_head: L2BlockId,
    computed_root: Bytes32,
) -> EpilogueOutcome {
    if computed_root@ == claim.claimed_l2_output_root@ {
        EpilogueOutcome::Verified { claim }
    } else {
        EpilogueOutcome::Mismatch {
            number: safe_head.number,
            claimed: claim.claimed_l2_output_root,
            computed: computed_root,
        }
    }
}

/// Compare the final recomputed output root to the claimed one: equality
/// verifies the claim and returns the record unchanged; anything else is a
/// mismatch naming the block number reached and both roots.
pub fn run_epilogue(claim: ClaimRecord, safe_head: L2BlockId, computed_root: Bytes32) -> (r:
    EpilogueOutcome)
    ensures
        r == epilogue_spec(claim, safe_head, computed_root),
{
    if computed_root.same(&claim.claimed_l2_output_root) {
        EpilogueOutcome::Verified { claim }
    } else {
        EpilogueOutcome::Mismatch {
            number: safe_head.number,
            claimed: claim.claimed_l2_output_root,
            computed: computed_root,
        }
    }
}

/// Epilogue correctness law: the outcome is success exactly when the
/// recomputed root equals the claimed one; on success the claim record comes
/// back unchanged, and on failure the reported block number is the final
/// tip's and the reported roots are the two compared.
pub proof fn lemma_epilogue_correct(claim: ClaimRecord, safe_head: L2BlockId, computed_root: Bytes32)
    ensures
        epilogue_spec(claim, safe_head, computed_root) is Verified
            <==> computed_root@ == claim.claimed_l2_output_root@,
        epilogue_spec(claim, safe_head, computed_root) is Verified
            ==> epilogue_spec(claim, safe_head, computed_root)->Verified_claim == claim,
        epilogue_spec(claim, safe_head, computed_root) is Mismatch
            ==> epilogue_spec(claim, safe_head, computed_root) == (EpilogueOutcome::Mismatch {
                number: safe_head.number,
                claimed: claim.claimed_l2_output_root,
                computed: computed_root,
            }),
{
}

} // verus!
