//! Prologue validation: once the claim record is loaded and the agreed output
//! root is resolved to a concrete safe head, decide whether the claim is
//! invalid outright, already agreed upon (trace extension), or worth deriving.

use vstd::prelude::*;

use crate::types::{Bytes32, ClaimRecord};

verus! {

/// Byte width of the canonical output-root preimage.
pub const OUTPUT_PREIMAGE_LEN: usize = 128;

/// Offset of the safe head's block hash inside the output-root preimage.
pub const SAFE_HEAD_HASH_OFFSET: usize = 96;

/// Verdict of the prologue checks, in the order they are applied.
#[derive(Clone, Copy, Debug)]
pub enum PrologueOutcome {
    /// The claim is made at a block behind already-verified state: rejected
    /// immediately, whatever the roots say.
    InvalidClaim { claimed: u64, safe: u64 },
    /// Agreed and claimed output roots coincide: the state transition is
    /// already agreed upon, and the claim record is returned unchanged with
    /// no derivation or execution at all.
    TraceExtension { claim: ClaimRecord },
    /// The claim must be settled by the driver loop, targeting its block
    /// number.
    Proceed { claim: ClaimRecord, target: u64 },
}

/// What the prologue decides, for every claim and safe head.
pub open spec fn prologue_spec(claim: ClaimRecord, safe_head_number: u64) -> PrologueOutcome {
    if claim.claimed_l2_block_number < safe_head_number {
        PrologueOutcome::InvalidClaim { claimed: claim.claimed_l2_block_number, safe: safe_head_number }
    } else if claim.agreed_l2_output_root@ == claim.claimed_l2_output_root@ {
        PrologueOutcome::TraceExtension { claim }
    } else {
        PrologueOutcome::Proceed { claim, target: claim.claimed_l2_block_number }
    }
}

/// Apply the prologue checks, in order: a claim behind the safe head is
/// invalid; identical agreed and claimed roots short-circuit to success;
/// anything else goes to the driver loop.
pub fn run_prologue(claim: ClaimRecord, safe_head_number: u64) -> (r: PrologueOutcome)
    ensures
        r == prologue_spec(claim, safe_head_number),
{
    if claim.claimed_l2_block_number < safe_head_number {
        PrologueOutcome::InvalidClaim { claimed: claim.claimed_l2_block_number, safe: safe_head_number }
    } else if claim.agreed_l2_output_root.same(&claim.claimed_l2_output_root) {
        PrologueOutcome::TraceExtension { claim }
    } else {
        PrologueOutcome::Proceed { claim, target: claim.claimed_l2_block_number }
    }
}

/// Invalid-claim rejection law: whenever the claimed block number lies behind
/// the safe head, the prologue rejects the claim, for all values of the other
/// fields; and it rejects no other claim.
pub proof fn lemma_invalid_claim_rejected(claim: ClaimRecord, safe_head_number: u64)
    ensures
        prologue_spec(claim, safe_head_number) is InvalidClaim
            <==> claim.claimed_l2_block_number < safe_head_number,
{
}

/// Idempotent short-circuit law: a claim whose agreed and claimed output
/// roots coincide (and which is not behind the safe head) ends at the
/// prologue, with the claim record unchanged; no driver loop is ever built,
/// so neither pipeline nor executor is invoked.
pub proof fn lemma_trace_extension_short_circuit(claim: ClaimRecord, safe_head_number: u64)
    requires
        claim.claimed_l2_block_number >= safe_head_number,
        claim.agreed_l2_output_root@ == claim.claimed_l2_output_root@,
    ensures
        prologue_spec(claim, safe_head_number) == (PrologueOutcome::TraceExtension { claim }),
{
}

/// Read the safe head's block hash out of the canonical output-root
/// preimage: the fixed 32-byte field at the end of the 128-byte preimage.
pub fn safe_head_hash_from_preimage(preimage: &[u8; OUTPUT_PREIMAGE_LEN]) -> (r: Bytes32)
    ensures
        r@ == preimage@.subrange(SAFE_HEAD_HASH_OFFSET as int, OUTPUT_PREIMAGE_LEN as int),
{
    let mut bytes: [u8; 32] = [0; 32];
    let mut i: usize = 0;
    while i < 32
        invariant
            0 <= i <= 32,
            forall|j: int| 0 <= j < i ==> bytes@[j] == preimage@[SAFE_HEAD_HASH_OFFSET + j],
        decreases 32 - i,
    {
        bytes[i] = preimage[SAFE_HEAD_HASH_OFFSET + i];
        i = i + 1;
    }
    proof {
        assert(bytes@ =~= preimage@.subrange(SAFE_HEAD_HASH_OFFSET as int, OUTPUT_PREIMAGE_LEN as int));
    }
    Bytes32 { bytes }
}

} // verus!
