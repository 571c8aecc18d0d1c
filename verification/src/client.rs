//! Bootstrap of a client run: apply the prologue checks and, only when the
//! claim must be settled by derivation, build the driver with the resolved
//! safe head as its starting tip and the claimed block number as its target.

use vstd::prelude::*;

use crate::cursor::{CursorEntry, TipCursor};
use crate::driver::{DriverModel, DriverState, PhaseModel};
use crate::prologue::{run_prologue, PrologueOutcome};
use crate::types::{ClaimRecord, L2BlockId, OriginMarker};

verus! {

/// How a run begins, decided entirely by the prologue checks.
pub enum ClientStart {
    /// The claim is behind already-verified state; nothing is derived.
    Rejected { claimed: u64, safe: u64 },
    /// Agreed and claimed roots coincide; the claim record is already
    /// verified, and no driver — so neither pipeline nor executor — is ever
    /// built.
    AlreadyAgreed { claim: ClaimRecord },
    /// The claim must be settled: drive derivation and execution from the
    /// resolved safe head to the claimed block number.
    Driving { claim: ClaimRecord, state: DriverState },
}

/// The starting tip of a run: the resolved safe head, carrying the agreed
/// output root — the one root this system takes from the claim rather than
/// recomputing, because it names the agreed starting state.
pub open spec fn starting_tip(claim: ClaimRecord, safe_head: L2BlockId) -> TipCursor {
    TipCursor { l2_safe_head: safe_head, l2_safe_head_output_root: claim.agreed_l2_output_root }
}

/// The driver state a run starts from, when it starts at all.
pub open spec fn starting_state(
    claim: ClaimRecord,
    safe_head: L2BlockId,
    origin: OriginMarker,
) -> DriverModel {
    DriverModel {
        config: claim.config,
        target: Some(claim.claimed_l2_block_number),
        entries: seq![CursorEntry { origin, tip: starting_tip(claim, safe_head) }],
        phase: PhaseModel::Deriving,
    }
}

/// Begin a run: reject a claim behind the safe head; return an agreed claim
/// untouched; otherwise build the driver, targeted at the claimed block
/// number, over a one-entry history holding the safe head and the agreed
/// root.
pub fn start_client(claim: ClaimRecord, safe_head: L2BlockId, origin: OriginMarker) -> (r:
    ClientStart)
    ensures
        r is Rejected <==> claim.claimed_l2_block_number < safe_head.number,
        r matches ClientStart::Rejected { claimed, safe }
            ==> claimed == claim.claimed_l2_block_number && safe == safe_head.number,
        r is AlreadyAgreed <==> (claim.claimed_l2_block_number >= safe_head.number
            && claim.agreed_l2_output_root@ == claim.claimed_l2_output_root@),
        r matches ClientStart::AlreadyAgreed { claim: out } ==> out == claim,
        r matches ClientStart::Driving { claim: out, state } ==> out == claim && state.wf()
            && state@ == starting_state(claim, safe_head, origin),
{
    match run_prologue(claim, safe_head.number) {
        PrologueOutcome::InvalidClaim { claimed, safe } => ClientStart::Rejected { claimed, safe },
        PrologueOutcome::TraceExtension { claim } => ClientStart::AlreadyAgreed { claim },
        PrologueOutcome::Proceed { claim, target } => {
            let state = DriverState::new(
                claim.config,
                Some(target),
                origin,
                TipCursor {
                    l2_safe_head: safe_head,
                    l2_safe_head_output_root: claim.agreed_l2_output_root,
                },
            );
            ClientStart::Driving { claim, state }
        },
    }
}

} // verus!
