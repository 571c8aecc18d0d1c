use alloy_primitives::{Address, Bytes, TxKind, B256, U256};
use op_alloy_consensus::{OpTransaction, OpTxEnvelope, TxDeposit};

use rollup_client::client::{start_client, ClientStart};
use rollup_client::cursor::{CursorHistory, TipCursor};
use rollup_client::deposit::filter_deposit_only;
use rollup_client::driver::{BuildFailure, DriverError, DriverState, Event, Phase};
use rollup_client::epilogue::{run_epilogue, EpilogueOutcome};
use rollup_client::prologue::{run_prologue, safe_head_hash_from_preimage, PrologueOutcome};
use rollup_client::txdecode::decode_transactions;
use rollup_client::types::{Attributes, Bytes32, ClaimRecord, L2BlockId, OriginMarker, RollupConfig};

fn root(b: u8) -> Bytes32 {
    Bytes32::new([b; 32])
}

fn config() -> RollupConfig {
    RollupConfig { holocene_time: None, interop_time: None }
}

fn head(number: u64, timestamp: u64) -> L2BlockId {
    L2BlockId { number, hash: root(0xAA), parent_hash: root(0xAB), timestamp }
}

fn claim(agreed: u8, claimed: u8, number: u64) -> ClaimRecord {
    ClaimRecord {
        l1_head: root(0x11),
        agreed_l2_output_root: root(agreed),
        claimed_l2_output_root: root(claimed),
        claimed_l2_block_number: number,
        config: config(),
    }
}

fn driver(tip_number: u64, target: Option<u64>, cfg: RollupConfig) -> DriverState {
    let tip = TipCursor {
        l2_safe_head: head(tip_number, 1000),
        l2_safe_head_output_root: root(0xCC),
    };
    let origin = OriginMarker { number: 7, hash: root(0x07) };
    DriverState::new(cfg, target, origin, tip)
}

#[test]
fn trace_extension_returns_claim_unchanged() {
    // Agreed root equals claimed root: immediate success, record unmodified,
    // and no driver loop is ever built.
    let c = claim(0x55, 0x55, 200);
    match run_prologue(c, 100) {
        PrologueOutcome::TraceExtension { claim: out } => {
            assert_eq!(out.agreed_l2_output_root.bytes, [0x55; 32]);
            assert_eq!(out.claimed_l2_output_root.bytes, [0x55; 32]);
            assert_eq!(out.claimed_l2_block_number, 200);
            assert_eq!(out.l1_head.bytes, [0x11; 32]);
        }
        _ => panic!("expected trace extension"),
    }
}

#[test]
fn invalid_claim_behind_safe_head() {
    // Safe head at block 100, claimed block number 50: immediate rejection.
    let c = claim(0x01, 0x02, 50);
    match run_prologue(c, 100) {
        PrologueOutcome::InvalidClaim { claimed, safe } => {
            assert_eq!(claimed, 50);
            assert_eq!(safe, 100);
        }
        _ => panic!("expected invalid claim"),
    }
}

#[test]
fn invalid_claim_wins_over_equal_roots() {
    // The behind-the-safe-head check comes first, whatever the roots say.
    let c = claim(0x55, 0x55, 50);
    assert!(matches!(run_prologue(c, 100), PrologueOutcome::InvalidClaim { .. }));
}

#[test]
fn differing_roots_proceed_to_derivation() {
    let c = claim(0x01, 0x02, 100);
    match run_prologue(c, 100) {
        PrologueOutcome::Proceed { claim: out, target } => {
            assert_eq!(target, 100);
            assert_eq!(out.claimed_l2_block_number, 100);
        }
        _ => panic!("expected proceed"),
    }
}

#[test]
fn exhaustion_clamps_target_and_completes() {
    // Pipeline exhausted with the safe head at 120 and the target at 150,
    // interoperability inactive: the target clamps to 120 and the loop ends
    // complete at block 120 with the locally recomputed root.
    let d = driver(120, Some(150), config());
    let d = d.step(Event::Begin);
    assert!(matches!(d.phase, Phase::AwaitingPayload));
    let d = d.step(Event::PayloadExhausted);
    assert_eq!(d.target, Some(120));
    assert!(matches!(d.phase, Phase::Deriving));
    let d = d.step(Event::Begin);
    match d.phase {
        Phase::Complete { safe_head, output_root } => {
            assert_eq!(safe_head.number, 120);
            // The recomputed root of the tip, not any claimed root.
            assert_eq!(output_root.bytes, [0xCC; 32]);
        }
        _ => panic!("expected complete"),
    }
}

#[test]
fn exhaustion_under_interop_is_a_hard_error() {
    let cfg = RollupConfig { holocene_time: None, interop_time: Some(100) };
    let d = driver(120, Some(150), cfg);
    let d = d.step(Event::Begin).step(Event::PayloadExhausted);
    assert_eq!(d.target, Some(120));
    assert!(matches!(d.phase, Phase::Failed { error: DriverError::EndOfSourceInterop }));
}

#[test]
fn exhaustion_without_target_keeps_none() {
    let d = driver(120, None, config());
    let d = d.step(Event::Begin).step(Event::PayloadExhausted);
    assert_eq!(d.target, None);
    assert!(matches!(d.phase, Phase::Deriving));
}

#[test]
fn pipeline_failure_is_fatal() {
    let d = driver(120, Some(150), config());
    let d = d.step(Event::Begin).step(Event::PayloadFailed);
    assert!(matches!(d.phase, Phase::Failed { error: DriverError::Pipeline }));
}

#[test]
fn target_reached_immediately_completes() {
    let d = driver(120, Some(100), config());
    let d = d.step(Event::Begin);
    match d.phase {
        Phase::Complete { safe_head, output_root } => {
            assert_eq!(safe_head.number, 120);
            assert_eq!(output_root.bytes, [0xCC; 32]);
        }
        _ => panic!("expected complete"),
    }
}

fn attrs(timestamp: u64, txs: Vec<Vec<u8>>) -> Attributes {
    Attributes { timestamp, transactions: Some(txs) }
}

#[test]
fn post_activation_retry_advances_with_retry_result() {
    // Post-activation block fails execution; the deposit-only retry succeeds:
    // exactly one tip is appended, carrying the retry's execution result.
    let cfg = RollupConfig { holocene_time: Some(0), interop_time: None };
    let d = driver(120, Some(150), cfg);
    let d = d.step(Event::Begin);
    let d = d.step(Event::PayloadReady { attrs: attrs(1002, vec![vec![0x7E, 9], vec![0x02, 3]]) });
    assert!(matches!(d.phase, Phase::AwaitingExecution { retried: false, .. }));
    let d = d.step(Event::ExecutionFailed);
    assert!(matches!(d.phase, Phase::AwaitingFlush { .. }));
    let d = d.step(Event::Flushed);
    match &d.phase {
        Phase::AwaitingExecution { attrs, retried } => {
            assert!(*retried);
            assert_eq!(attrs.transactions, Some(vec![vec![0x7E, 9]]));
        }
        _ => panic!("expected retry execution"),
    }
    let d = d.step(Event::ExecutionSucceeded);
    assert!(matches!(d.phase, Phase::AwaitingBlockBuild { .. }));
    let built = head(121, 1002);
    let d = d.step(Event::BlockBuilt {
        info: built,
        origin: OriginMarker { number: 8, hash: root(0x08) },
        output_root: root(0xDD),
    });
    assert!(matches!(d.phase, Phase::Deriving));
    assert_eq!(d.cursor.len(), 2);
    let tip = d.cursor.tip();
    assert_eq!(tip.l2_safe_head.number, 121);
    assert_eq!(tip.l2_safe_head_output_root.bytes, [0xDD; 32]);
}

#[test]
fn retry_failure_is_critical_and_terminal() {
    // A second failure post-activation is fatal: no third attempt.
    let cfg = RollupConfig { holocene_time: Some(1000), interop_time: None };
    let d = driver(120, Some(150), cfg);
    let d = d
        .step(Event::Begin)
        .step(Event::PayloadReady { attrs: attrs(1002, vec![vec![0x7E]]) })
        .step(Event::ExecutionFailed)
        .step(Event::Flushed)
        .step(Event::ExecutionFailed);
    assert!(matches!(d.phase, Phase::Failed { error: DriverError::CriticalExecution }));
    assert_eq!(d.cursor.len(), 1);
}

#[test]
fn pre_activation_failure_discards_without_advancing() {
    // Before the activation boundary a failed candidate block is dropped and
    // the loop continues from the same safe head; nothing is recorded.
    let cfg = RollupConfig { holocene_time: Some(2000), interop_time: None };
    let d = driver(120, Some(150), cfg);
    let d = d
        .step(Event::Begin)
        .step(Event::PayloadReady { attrs: attrs(1002, vec![vec![0x02]]) })
        .step(Event::ExecutionFailed);
    assert!(matches!(d.phase, Phase::Deriving));
    assert_eq!(d.cursor.len(), 1);
    assert_eq!(d.cursor.tip().l2_safe_head.number, 120);
}

#[test]
fn activation_boundary_is_inclusive() {
    let cfg = RollupConfig { holocene_time: Some(1002), interop_time: None };
    assert!(cfg.is_holocene_active(1002));
    assert!(!cfg.is_holocene_active(1001));
    assert!(config().is_holocene_active(0) == false);
    let icfg = RollupConfig { holocene_time: None, interop_time: Some(120) };
    assert!(icfg.is_interop_active(120));
    assert!(!icfg.is_interop_active(119));
}

#[test]
fn flush_failure_is_fatal() {
    let cfg = RollupConfig { holocene_time: Some(0), interop_time: None };
    let d = driver(120, Some(150), cfg);
    let d = d
        .step(Event::Begin)
        .step(Event::PayloadReady { attrs: attrs(1002, vec![]) })
        .step(Event::ExecutionFailed)
        .step(Event::FlushFailed);
    assert!(matches!(d.phase, Phase::Failed { error: DriverError::Signal }));
}

#[test]
fn build_failures_map_to_their_errors() {
    let reasons = [
        (BuildFailure::TxDecode, DriverError::TxDecode),
        (BuildFailure::MissingOrigin, DriverError::MissingOrigin),
        (BuildFailure::OutputRoot, DriverError::OutputRoot),
    ];
    for (failure, _expected) in reasons {
        let d = driver(120, Some(150), config());
        let d = d
            .step(Event::Begin)
            .step(Event::PayloadReady { attrs: attrs(1002, vec![]) })
            .step(Event::ExecutionSucceeded)
            .step(Event::BlockBuildFailed { failure });
        match (failure, d.phase) {
            (BuildFailure::TxDecode, Phase::Failed { error: DriverError::TxDecode }) => {}
            (BuildFailure::MissingOrigin, Phase::Failed { error: DriverError::MissingOrigin }) => {}
            (BuildFailure::OutputRoot, Phase::Failed { error: DriverError::OutputRoot }) => {}
            _ => panic!("wrong error for build failure"),
        }
    }
}

#[test]
fn non_monotonic_block_is_rejected() {
    // A built block whose number does not lie beyond the safe head would
    // break the append-only history: the run fails instead.
    let d = driver(120, Some(150), config());
    let d = d
        .step(Event::Begin)
        .step(Event::PayloadReady { attrs: attrs(1002, vec![]) })
        .step(Event::ExecutionSucceeded)
        .step(Event::BlockBuilt {
            info: head(120, 1002),
            origin: OriginMarker { number: 8, hash: root(0x08) },
            output_root: root(0xDD),
        });
    assert!(matches!(d.phase, Phase::Failed { error: DriverError::NonMonotonicTip }));
    assert_eq!(d.cursor.len(), 1);
}

#[test]
fn successful_blocks_accumulate_in_order() {
    let mut d = driver(120, Some(123), config());
    for n in 121..=123u64 {
        d = d
            .step(Event::Begin)
            .step(Event::PayloadReady { attrs: attrs(1000 + n, vec![vec![0x7E]]) })
            .step(Event::ExecutionSucceeded)
            .step(Event::BlockBuilt {
                info: head(n, 1000 + n),
                origin: OriginMarker { number: 9, hash: root(0x09) },
                output_root: root(n as u8),
            });
        assert!(matches!(d.phase, Phase::Deriving));
    }
    assert_eq!(d.cursor.len(), 4);
    for i in 0..4 {
        assert_eq!(d.cursor.entry(i).tip.l2_safe_head.number, 120 + i as u64);
    }
    let d = d.step(Event::Begin);
    match d.phase {
        Phase::Complete { safe_head, output_root } => {
            assert_eq!(safe_head.number, 123);
            assert_eq!(output_root.bytes, [123; 32]);
        }
        _ => panic!("expected complete"),
    }
}

#[test]
fn filter_keeps_exactly_the_deposits() {
    let txs = vec![vec![0x7E, 1, 2], vec![0x02, 9], vec![], vec![0x7E], vec![0x7D]];
    let filtered = filter_deposit_only(txs);
    assert_eq!(filtered, vec![vec![0x7E, 1, 2], vec![0x7E]]);
}

#[test]
fn filter_of_empty_list_is_empty() {
    let filtered = filter_deposit_only(Vec::new());
    assert!(filtered.is_empty());
}

#[test]
fn retry_with_absent_transactions_stays_absent() {
    let cfg = RollupConfig { holocene_time: Some(0), interop_time: None };
    let d = driver(120, Some(150), cfg);
    let d = d
        .step(Event::Begin)
        .step(Event::PayloadReady {
            attrs: Attributes { timestamp: 1002, transactions: None },
        })
        .step(Event::ExecutionFailed)
        .step(Event::Flushed);
    match &d.phase {
        Phase::AwaitingExecution { attrs, retried } => {
            assert!(*retried);
            assert_eq!(attrs.transactions, None);
            assert_eq!(attrs.timestamp, 1002);
        }
        _ => panic!("expected retry execution"),
    }
}

#[test]
fn epilogue_verifies_on_matching_root() {
    let c = claim(0x01, 0x02, 140);
    match run_epilogue(c, head(140, 1040), root(0x02)) {
        EpilogueOutcome::Verified { claim: out } => {
            assert_eq!(out.claimed_l2_block_number, 140);
            assert_eq!(out.agreed_l2_output_root.bytes, [0x01; 32]);
            assert_eq!(out.claimed_l2_output_root.bytes, [0x02; 32]);
        }
        _ => panic!("expected verified"),
    }
}

#[test]
fn epilogue_mismatch_names_block_and_roots() {
    let c = claim(0x01, 0x02, 140);
    match run_epilogue(c, head(140, 1040), root(0x03)) {
        EpilogueOutcome::Mismatch { number, claimed, computed } => {
            assert_eq!(number, 140);
            assert_eq!(claimed.bytes, [0x02; 32]);
            assert_eq!(computed.bytes, [0x03; 32]);
        }
        _ => panic!("expected mismatch"),
    }
}

#[test]
fn cursor_appends_strictly_increasing_tips() {
    let origin = OriginMarker { number: 7, hash: root(0x07) };
    let mut h = CursorHistory::new(
        origin,
        TipCursor { l2_safe_head: head(10, 100), l2_safe_head_output_root: root(1) },
    );
    assert_eq!(h.len(), 1);
    h.advance(
        origin,
        TipCursor { l2_safe_head: head(11, 102), l2_safe_head_output_root: root(2) },
    );
    h.advance(
        origin,
        TipCursor { l2_safe_head: head(13, 106), l2_safe_head_output_root: root(3) },
    );
    assert_eq!(h.len(), 3);
    assert_eq!(h.tip().l2_safe_head.number, 13);
    assert_eq!(h.tip().l2_safe_head_output_root.bytes, [3; 32]);
    let mut last = 0;
    for i in 0..3 {
        let n = h.entry(i).tip.l2_safe_head.number;
        assert!(n > last);
        last = n;
    }
}

#[test]
fn preimage_tail_is_the_safe_head_hash() {
    let mut preimage = [0u8; 128];
    for (i, b) in preimage.iter_mut().enumerate() {
        *b = i as u8;
    }
    let hash = safe_head_hash_from_preimage(&preimage);
    for i in 0..32 {
        assert_eq!(hash.bytes[i], (96 + i) as u8);
    }
}

#[test]
fn bytes32_same_compares_contents() {
    let a = root(5);
    let b = root(5);
    let c = root(6);
    assert!(a.same(&b));
    assert!(!a.same(&c));
    let mut d = [5u8; 32];
    d[31] = 9;
    assert!(!a.same(&Bytes32::new(d)));
}

#[test]
fn malformed_transaction_fails_decoding() {
    let r = decode_transactions(&vec![vec![0xFF, 0x01]]);
    assert!(matches!(r, Err(DriverError::TxDecode)));
    // One malformed entry fails the block, whatever stands around it.
    let deposit = sample_deposit();
    let encoded = alloy_rlp::encode(&OpTxEnvelope::from(deposit));
    let r = decode_transactions(&vec![encoded, vec![0xFF, 0x01]]);
    assert!(matches!(r, Err(DriverError::TxDecode)));
}

fn sample_deposit() -> TxDeposit {
    TxDeposit {
        source_hash: B256::ZERO,
        from: Address::ZERO,
        to: TxKind::Create,
        mint: 0,
        value: U256::ZERO,
        gas_limit: 21_000,
        is_system_transaction: false,
        input: Bytes::new(),
    }
}

#[test]
fn encoded_deposit_decodes_back_to_a_deposit() {
    let envelope = OpTxEnvelope::from(sample_deposit());
    let encoded = alloy_rlp::encode(&envelope);
    let decoded = decode_transactions(&vec![encoded]).expect("a canonical encoding decodes");
    assert_eq!(decoded.len(), 1);
    assert!(decoded[0].is_deposit());
}

#[test]
fn empty_transaction_list_decodes() {
    assert!(decode_transactions(&Vec::new()).unwrap().is_empty());
}

#[test]
fn start_client_builds_driver_on_agreed_state() {
    // A claim worth deriving builds a driver whose starting tip carries the
    // agreed output root and whose target is the claimed block number.
    let c = claim(0x01, 0x02, 150);
    let origin = OriginMarker { number: 7, hash: root(0x07) };
    match start_client(c, head(120, 1000), origin) {
        ClientStart::Driving { claim: out, state } => {
            assert_eq!(out.claimed_l2_block_number, 150);
            assert_eq!(state.target, Some(150));
            assert_eq!(state.cursor.len(), 1);
            let tip = state.cursor.tip();
            assert_eq!(tip.l2_safe_head.number, 120);
            assert_eq!(tip.l2_safe_head_output_root.bytes, [0x01; 32]);
            assert!(matches!(state.phase, Phase::Deriving));
        }
        _ => panic!("expected a driving start"),
    }
}

#[test]
fn start_client_short_circuits_agreed_claim() {
    let c = claim(0x05, 0x05, 150);
    let origin = OriginMarker { number: 7, hash: root(0x07) };
    match start_client(c, head(120, 1000), origin) {
        ClientStart::AlreadyAgreed { claim: out } => {
            assert_eq!(out.claimed_l2_block_number, 150);
            assert_eq!(out.agreed_l2_output_root.bytes, [0x05; 32]);
        }
        _ => panic!("expected the short circuit"),
    }
}

#[test]
fn start_client_rejects_claim_behind_safe_head() {
    let c = claim(0x05, 0x05, 50);
    let origin = OriginMarker { number: 7, hash: root(0x07) };
    assert!(matches!(
        start_client(c, head(120, 1000), origin),
        ClientStart::Rejected { claimed: 50, safe: 120 }
    ));
}

#[test]
fn failed_state_is_terminal() {
    let d = driver(120, Some(150), config());
    let d = d.step(Event::Begin).step(Event::PayloadFailed);
    let d = d.step(Event::Begin).step(Event::ExecutionSucceeded).step(Event::Flushed);
    assert!(matches!(d.phase, Phase::Failed { error: DriverError::Pipeline }));
    assert_eq!(d.cursor.len(), 1);
}

#[test]
fn mismatched_event_leaves_state_unchanged() {
    // An event that does not answer the pending phase moves nothing.
    let d = driver(120, Some(150), config());
    let d = d.step(Event::ExecutionSucceeded);
    assert!(matches!(d.phase, Phase::Deriving));
    assert_eq!(d.target, Some(150));
    assert_eq!(d.cursor.len(), 1);
}
