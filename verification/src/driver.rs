//! The derivation-execution driver loop as an explicit state machine.
//!
//! The machine owns every decision the loop takes: when the target is
//! reached, how source exhaustion is absorbed or escalated, when an execution
//! failure is retried deposit-only and when it is discarded, and when the
//! cursor advances. The host performs the outside work each phase calls for
//! (produce a payload, execute it, flush the channel, build the block and
//! recompute the output root) and reports the outcome as an [`Event`]; the
//! machine's transition function [`DriverState::step`] is verified against
//! the mathematical transition [`next`].

use vstd::prelude::*;

use crate::cursor::{entries_monotonic, lemma_monotonic_push, CursorEntry, CursorHistory, TipCursor};
use crate::deposit::{deposit_filter, filter_deposit_only};
use crate::types::{Attributes, AttributesModel, Bytes32, L2BlockId, OriginMarker, RollupConfig};

verus! {

/// Why building the accepted block (or its output root) failed. Each of these
/// is fatal: a malformed transaction encoding, a pipeline that lost its
/// origin marker, or a state-transition function that could not commit.
#[derive(Clone, Copy, Debug)]
pub enum BuildFailure {
    TxDecode,
    MissingOrigin,
    OutputRoot,
}

/// Terminal error of a driver run. A claim mismatch is not among these: the
/// epilogue reports that verdict separately, so callers can tell a refuted
/// claim from an aborted run.
#[derive(Clone, Copy, Debug)]
pub enum DriverError {
    /// The pipeline failed with anything but source exhaustion.
    Pipeline,
    /// The source was exhausted while interoperability mode is active; the
    /// caller must coordinate, so the condition is escalated instead of
    /// absorbed.
    EndOfSourceInterop,
    /// The flush signal sent before a deposit-only retry failed.
    Signal,
    /// The deposit-only retry itself failed: the system has no further
    /// fallback.
    CriticalExecution,
    /// A transaction of an accepted block did not decode.
    TxDecode,
    /// The pipeline had no origin marker for an accepted block.
    MissingOrigin,
    /// The output root could not be recomputed from post-execution state.
    OutputRoot,
    /// The built block's number did not lie beyond the safe head, which would
    /// break the cursor's append-only monotonic history.
    NonMonotonicTip,
}

/// Where the loop stands, and what outside work the host owes it next.
#[derive(Debug)]
pub enum Phase {
    /// Start of an iteration: the host reports [`Event::Begin`] and the
    /// machine checks the target.
    Deriving,
    /// The host must ask the pipeline for the next payload, keyed on the
    /// current safe head as parent.
    AwaitingPayload,
    /// The host must point the executor at the current safe head and execute
    /// `attrs`. `retried` says whether this is the deposit-only second
    /// attempt.
    AwaitingExecution { attrs: Attributes, retried: bool },
    /// The host must signal the pipeline to flush its current channel before
    /// the deposit-only retry.
    AwaitingFlush { attrs: Attributes },
    /// The host must build the block from the execution result's header and
    /// `attrs`' transactions, fetch the pipeline's origin marker, and
    /// recompute the output root from post-execution state.
    AwaitingBlockBuild { attrs: Attributes },
    /// The target was reached: the run ends at this safe head with this
    /// locally recomputed output root.
    Complete { safe_head: L2BlockId, output_root: Bytes32 },
    /// The run aborted.
    Failed { error: DriverError },
}

/// Outcome of the outside work a phase asked for.
#[derive(Debug)]
pub enum Event {
    /// Start the next iteration.
    Begin,
    /// The pipeline produced the next block's attributes.
    PayloadReady { attrs: Attributes },
    /// The pipeline signalled that its data source is exhausted.
    PayloadExhausted,
    /// The pipeline failed with any other error.
    PayloadFailed,
    /// The executor accepted the attributes.
    ExecutionSucceeded,
    /// The executor rejected the attributes.
    ExecutionFailed,
    /// The flush signal was delivered.
    Flushed,
    /// The flush signal could not be delivered.
    FlushFailed,
    /// The accepted block was built: its identity, the origin marker that
    /// produced it, and the output root recomputed from post-execution state.
    BlockBuilt { info: L2BlockId, origin: OriginMarker, output_root: Bytes32 },
    /// Building the accepted block failed.
    BlockBuildFailed { failure: BuildFailure },
}

/// Mathematical shape of [`Phase`].
pub ghost enum PhaseModel {
    Deriving,
    AwaitingPayload,
    AwaitingExecution { attrs: AttributesModel, retried: bool },
    AwaitingFlush { attrs: AttributesModel },
    AwaitingBlockBuild { attrs: AttributesModel },
    Complete { safe_head: L2BlockId, output_root: Bytes32 },
    Failed { error: DriverError },
}

/// Mathematical shape of [`Event`].
pub ghost enum EventModel {
    Begin,
    PayloadReady { attrs: AttributesModel },
    PayloadExhausted,
    PayloadFailed,
    ExecutionSucceeded,
    ExecutionFailed,
    Flushed,
    FlushFailed,
    BlockBuilt { info: L2BlockId, origin: OriginMarker, output_root: Bytes32 },
    BlockBuildFailed { failure: BuildFailure },
}

impl View for Phase {
    type V = PhaseModel;

    open spec fn view(&self) -> PhaseModel {
        match self {
            Phase::Deriving => PhaseModel::Deriving,
            Phase::AwaitingPayload => PhaseModel::AwaitingPayload,
            Phase::AwaitingExecution { attrs, retried } => PhaseModel::AwaitingExecution {
                attrs: attrs@,
                retried: *retried,
            },
            Phase::AwaitingFlush { attrs } => PhaseModel::AwaitingFlush { attrs: attrs@ },
            Phase::AwaitingBlockBuild { attrs } => PhaseModel::AwaitingBlockBuild { attrs: attrs@ },
            Phase::Complete { safe_head, output_root } => PhaseModel::Complete {
                safe_head: *safe_head,
                output_root: *output_root,
            },
            Phase::Failed { error } => PhaseModel::Failed { error: *error },
        }
    }
}

impl View for Event {
    type V = EventModel;

    open spec fn view(&self) -> EventModel {
        match self {
            Event::Begin => EventModel::Begin,
            Event::PayloadReady { attrs } => EventModel::PayloadReady { attrs: attrs@ },
            Event::PayloadExhausted => EventModel::PayloadExhausted,
            Event::PayloadFailed => EventModel::PayloadFailed,
            Event::ExecutionSucceeded => EventModel::ExecutionSucceeded,
            Event::ExecutionFailed => EventModel::ExecutionFailed,
            Event::Flushed => EventModel::Flushed,
            Event::FlushFailed => EventModel::FlushFailed,
            Event::BlockBuilt { info, origin, output_root } => EventModel::BlockBuilt {
                info: *info,
                origin: *origin,
                output_root: *output_root,
            },
            Event::BlockBuildFailed { failure } => EventModel::BlockBuildFailed {
                failure: *failure,
            },
        }
    }
}

/// The driver's whole state: the configuration it decides under, the target
/// block number (clamped on exhaustion), the append-only history of verified
/// tips, and the phase of the loop.
#[derive(Debug)]
pub struct DriverState {
    pub config: RollupConfig,
    pub target: Option<u64>,
    pub cursor: CursorHistory,
    pub phase: Phase,
}

/// Mathematical shape of [`DriverState`].
pub ghost struct DriverModel {
    pub config: RollupConfig,
    pub target: Option<u64>,
    pub entries: Seq<CursorEntry>,
    pub phase: PhaseModel,
}

impl View for DriverState {
    type V = DriverModel;

    open spec fn view(&self) -> DriverModel {
        DriverModel {
            config: self.config,
            target: self.target,
            entries: self.cursor@,
            phase: self.phase@,
        }
    }
}

impl DriverModel {
    /// The cursor history is never empty and strictly monotonic.
    pub open spec fn wf(&self) -> bool {
        &&& self.entries.len() >= 1
        &&& entries_monotonic(self.entries)
    }

    /// Current safe head: the latest verified tip.
    pub open spec fn tip(&self) -> TipCursor {
        self.entries.last().tip
    }
}

/// `attrs` with its transaction list filtered down to deposits.
pub open spec fn filtered_attributes(attrs: AttributesModel) -> AttributesModel {
    AttributesModel {
        timestamp: attrs.timestamp,
        transactions: match attrs.transactions {
            Some(txs) => Some(deposit_filter(txs)),
            None => None,
        },
    }
}

/// The fatal error each build failure surfaces as.
pub open spec fn build_failure_error(failure: BuildFailure) -> DriverError {
    match failure {
        BuildFailure::TxDecode => DriverError::TxDecode,
        BuildFailure::MissingOrigin => DriverError::MissingOrigin,
        BuildFailure::OutputRoot => DriverError::OutputRoot,
    }
}

/// The driver's transition function. An event that does not answer the
/// current phase's pending work leaves the state unchanged.
pub open spec fn next(s: DriverModel, ev: EventModel) -> DriverModel {
    match (s.phase, ev) {
        (PhaseModel::Deriving, EventModel::Begin) => {
            let reached = match s.target {
                Some(tb) => s.tip().l2_safe_head.number >= tb,
                None => false,
            };
            if reached {
                DriverModel {
                    phase: PhaseModel::Complete {
                        safe_head: s.tip().l2_safe_head,
                        output_root: s.tip().l2_safe_head_output_root,
                    },
                    ..s
                }
            } else {
                DriverModel { phase: PhaseModel::AwaitingPayload, ..s }
            }
        },
        (PhaseModel::AwaitingPayload, EventModel::PayloadReady { attrs }) => DriverModel {
            phase: PhaseModel::AwaitingExecution { attrs, retried: false },
            ..s
        },
        (PhaseModel::AwaitingPayload, EventModel::PayloadExhausted) => {
            let clamped = match s.target {
                Some(_) => Some(s.tip().l2_safe_head.number),
                None => None,
            };
            if s.config.interop_active(s.tip().l2_safe_head.number) {
                DriverModel {
                    target: clamped,
                    phase: PhaseModel::Failed { error: DriverError::EndOfSourceInterop },
                    ..s
                }
            } else {
                DriverModel { target: clamped, phase: PhaseModel::Deriving, ..s }
            }
        },
        (PhaseModel::AwaitingPayload, EventModel::PayloadFailed) => DriverModel {
            phase: PhaseModel::Failed { error: DriverError::Pipeline },
            ..s
        },
        (PhaseModel::AwaitingExecution { attrs, .. }, EventModel::ExecutionSucceeded) => DriverModel {
            phase: PhaseModel::AwaitingBlockBuild { attrs },
            ..s
        },
        (PhaseModel::AwaitingExecution { attrs, retried }, EventModel::ExecutionFailed) => {
            if retried {
                DriverModel {
                    phase: PhaseModel::Failed { error: DriverError::CriticalExecution },
                    ..s
                }
            } else if s.config.holocene_active(attrs.timestamp) {
                DriverModel { phase: PhaseModel::AwaitingFlush { attrs }, ..s }
            } else {
                DriverModel { phase: PhaseModel::Deriving, ..s }
            }
        },
        (PhaseModel::AwaitingFlush { attrs }, EventModel::Flushed) => DriverModel {
            phase: PhaseModel::AwaitingExecution {
                attrs: filtered_attributes(attrs),
                retried: true,
            },
            ..s
        },
        (PhaseModel::AwaitingFlush { .. }, EventModel::FlushFailed) => DriverModel {
            phase: PhaseModel::Failed { error: DriverError::Signal },
            ..s
        },
        (PhaseModel::AwaitingBlockBuild { .. }, EventModel::BlockBuilt { info, origin, output_root }) => {
            if info.number > s.tip().l2_safe_head.number {
                DriverModel {
                    entries: s.entries.push(
                        CursorEntry {
                            origin,
                            tip: TipCursor { l2_safe_head: info, l2_safe_head_output_root: output_root },
                        },
                    ),
                    phase: PhaseModel::Deriving,
                    ..s
                }
            } else {
                DriverModel {
                    phase: PhaseModel::Failed { error: DriverError::NonMonotonicTip },
                    ..s
                }
            }
        },
        (PhaseModel::AwaitingBlockBuild { .. }, EventModel::BlockBuildFailed { failure }) => DriverModel {
            phase: PhaseModel::Failed { error: build_failure_error(failure) },
            ..s
        },
        _ => s,
    }
}

impl DriverState {
    pub open spec fn wf(&self) -> bool {
        self@.wf()
    }

    /// Bootstrap the driver from the resolved safe head: a one-entry cursor
    /// history and a fresh iteration.
    pub fn new(config: RollupConfig, target: Option<u64>, origin: OriginMarker, tip: TipCursor) -> (r:
        DriverState)
        ensures
            r.wf(),
            r@ == (DriverModel {
                config,
                target,
                entries: seq![CursorEntry { origin, tip }],
                phase: PhaseModel::Deriving,
            }),
    {
        DriverState { config, target, cursor: CursorHistory::new(origin, tip), phase: Phase::Deriving }
    }

    /// Current safe head.
    pub fn safe_head(&self) -> (r: TipCursor)
        requires
            self.wf(),
        ensures
            r == self@.tip(),
    {
        self.cursor.tip()
    }

    /// Take one transition: consume the outcome of the outside work the
    /// current phase asked for, and move to the phase that follows.
    pub fn step(self, event: Event) -> (r: DriverState)
        requires
            self.wf(),
        ensures
            r.wf(),
            r@ == next(self@, event@),
    {
        let DriverState { config, target, mut cursor, phase } = self;
        match (phase, event) {
            (Phase::Deriving, Event::Begin) => {
                let tip = cursor.tip();
                let reached = match target {
                    Some(tb) => tip.l2_safe_head.number >= tb,
                    None => false,
                };
                if reached {
                    DriverState {
                        config,
                        target,
                        cursor,
                        phase: Phase::Complete {
                            safe_head: tip.l2_safe_head,
                            output_root: tip.l2_safe_head_output_root,
                        },
                    }
                } else {
                    DriverState { config, target, cursor, phase: Phase::AwaitingPayload }
                }
            },
            (Phase::AwaitingPayload, Event::PayloadReady { attrs }) => DriverState {
                config,
                target,
                cursor,
                phase: Phase::AwaitingExecution { attrs, retried: false },
            },
            (Phase::AwaitingPayload, Event::PayloadExhausted) => {
                let tip = cursor.tip();
                let clamped = match target {
                    Some(_) => Some(tip.l2_safe_head.number),
                    None => None,
                };
                if config.is_interop_active(tip.l2_safe_head.number) {
                    DriverState {
                        config,
                        target: clamped,
                        cursor,
                        phase: Phase::Failed { error: DriverError::EndOfSourceInterop },
                    }
                } else {
                    DriverState { config, target: clamped, cursor, phase: Phase::Deriving }
                }
            },
            (Phase::AwaitingPayload, Event::PayloadFailed) => DriverState {
                config,
                target,
                cursor,
                phase: Phase::Failed { error: DriverError::Pipeline },
            },
            (Phase::AwaitingExecution { attrs, retried: _ }, Event::ExecutionSucceeded) => DriverState {
                config,
                target,
                cursor,
                phase: Phase::AwaitingBlockBuild { attrs },
            },
            (Phase::AwaitingExecution { attrs, retried }, Event::ExecutionFailed) => {
                if retried {
                    DriverState {
                        config,
                        target,
                        cursor,
                        phase: Phase::Failed { error: DriverError::CriticalExecution },
                    }
                } else if config.is_holocene_active(attrs.timestamp) {
                    DriverState { config, target, cursor, phase: Phase::AwaitingFlush { attrs } }
                } else {
                    DriverState { config, target, cursor, phase: Phase::Deriving }
                }
            },
            (Phase::AwaitingFlush { attrs }, Event::Flushed) => {
                let filtered = match attrs.transactions {
                    Some(txs) => Some(filter_deposit_only(txs)),
                    None => None,
                };
                DriverState {
                    config,
                    target,
                    cursor,
                    phase: Phase::AwaitingExecution {
                        attrs: Attributes { timestamp: attrs.timestamp, transactions: filtered },
                        retried: true,
                    },
                }
            },
            (Phase::AwaitingFlush { attrs: _ }, Event::FlushFailed) => DriverState {
                config,
                target,
                cursor,
                phase: Phase::Failed { error: DriverError::Signal },
            },
            (Phase::AwaitingBlockBuild { attrs: _ }, Event::BlockBuilt { info, origin, output_root }) => {
                let tip_number = cursor.tip().l2_safe_head.number;
                if info.number > tip_number {
                    cursor.advance(
                        origin,
                        TipCursor { l2_safe_head: info, l2_safe_head_output_root: output_root },
                    );
                    DriverState { config, target, cursor, phase: Phase::Deriving }
                } else {
                    DriverState {
                        config,
                        target,
                        cursor,
                        phase: Phase::Failed { error: DriverError::NonMonotonicTip },
                    }
                }
            },
            (Phase::AwaitingBlockBuild { attrs: _ }, Event::BlockBuildFailed { failure }) => {
                let error = match failure {
                    BuildFailure::TxDecode => DriverError::TxDecode,
                    BuildFailure::MissingOrigin => DriverError::MissingOrigin,
                    BuildFailure::OutputRoot => DriverError::OutputRoot,
                };
                DriverState { config, target, cursor, phase: Phase::Failed { error } }
            },
            (ph, _) => DriverState { config, target, cursor, phase: ph },
        }
    }
}

/// The transition function keeps the cursor history well formed, whatever the
/// event.
pub proof fn lemma_next_preserves_wf(s: DriverModel, ev: EventModel)
    requires
        s.wf(),
    ensures
        next(s, ev).wf(),
{
    match ev {
        EventModel::BlockBuilt { info, origin, output_root } => {
            if s.phase is AwaitingBlockBuild && info.number > s.tip().l2_safe_head.number {
                lemma_monotonic_push(
                    s.entries,
                    CursorEntry {
                        origin,
                        tip: TipCursor { l2_safe_head: info, l2_safe_head_output_root: output_root },
                    },
                );
            }
        },
        _ => {},
    }
}

/// Deposit-only retry bound, first half: when the retry attempt itself fails,
/// the run ends with a critical execution error  - there is no third attempt.
pub proof fn lemma_retry_failure_is_fatal(s: DriverModel)
    requires
        s.phase matches PhaseModel::AwaitingExecution { retried: true, .. },
    ensures
        next(s, EventModel::ExecutionFailed).phase == (PhaseModel::Failed {
            error: DriverError::CriticalExecution,
        }),
{
}

/// Deposit-only retry bound, second half: the only transition that puts the
/// machine in a retry execution is the flush that follows the first failure,
/// so the executor is asked at most twice for any one candidate block.
pub proof fn lemma_retry_entered_only_after_flush(s: DriverModel, ev: EventModel)
    requires
        next(s, ev).phase matches PhaseModel::AwaitingExecution { retried: true, .. },
    ensures
        (s.phase is AwaitingFlush && ev is Flushed) || next(s, ev) == s,
{
}

/// The retry runs with exactly the deposit transactions of the block that
/// failed, in their original order.
pub proof fn lemma_retry_is_deposit_only(s: DriverModel, attrs: AttributesModel)
    requires
        s.phase == (PhaseModel::AwaitingFlush { attrs }),
    ensures
        next(s, EventModel::Flushed).phase == (PhaseModel::AwaitingExecution {
            attrs: filtered_attributes(attrs),
            retried: true,
        }),
{
}

/// Pre-activation discard safety: when execution fails before the activation
/// boundary, the candidate block is discarded  - the cursor is not advanced,
/// no tip is recorded, the target is untouched, and the loop goes on.
pub proof fn lemma_pre_activation_discard(s: DriverModel, attrs: AttributesModel)
    requires
        s.phase == (PhaseModel::AwaitingExecution { attrs, retried: false }),
        !s.config.holocene_active(attrs.timestamp),
    ensures
        next(s, EventModel::ExecutionFailed).entries == s.entries,
        next(s, EventModel::ExecutionFailed).phase is Deriving,
        next(s, EventModel::ExecutionFailed).target == s.target,
{
}

/// At most one tip is appended per transition, and only when the host reports
/// an accepted, built block; every other transition leaves the history as it
/// was.
pub proof fn lemma_one_append_per_transition(s: DriverModel, ev: EventModel)
    ensures
        next(s, ev).entries == s.entries || (ev matches EventModel::BlockBuilt {
            info,
            origin,
            output_root,
        } && next(s, ev).entries == s.entries.push(
            CursorEntry {
                origin,
                tip: TipCursor { l2_safe_head: info, l2_safe_head_output_root: output_root },
            },
        )),
{
}

/// A run that completes reports exactly the current safe head and its
/// locally recomputed output root  - never a root taken from the claim.
pub proof fn lemma_complete_reports_the_tip(s: DriverModel)
    requires
        s.phase is Deriving,
        next(s, EventModel::Begin).phase is Complete,
    ensures
        next(s, EventModel::Begin).phase == (PhaseModel::Complete {
            safe_head: s.tip().l2_safe_head,
            output_root: s.tip().l2_safe_head_output_root,
        }),
        next(s, EventModel::Begin).entries == s.entries,
{
}

/// A failed run is terminal: no later event moves the machine.
pub proof fn lemma_failed_is_terminal(s: DriverModel, ev: EventModel)
    requires
        s.phase is Failed,
    ensures
        next(s, ev) == s,
{
}

/// A completed run is terminal: no later event moves the machine.
pub proof fn lemma_complete_is_terminal(s: DriverModel, ev: EventModel)
    requires
        s.phase is Complete,
    ensures
        next(s, ev) == s,
{
}

} // verus!
