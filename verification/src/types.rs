//! Plain data model of the values the driver reads: 32-byte commitments,
//! block identities, rollup configuration, the claim record, and the block
//! attributes a derivation pipeline hands out.

use vstd::prelude::*;

verus! {

/// A 32-byte value: an output root, a block hash, or any other cryptographic
/// commitment. The driver never looks inside one; it only compares them.
#[derive(Clone, Copy, Debug)]
pub struct Bytes32 {
    pub bytes: [u8; 32],
}

impl View for Bytes32 {
    type V = Seq<u8>;

    open spec fn view(&self) -> Seq<u8> {
        self.bytes@
    }
}

impl Bytes32 {
    pub fn new(bytes: [u8; 32]) -> (r: Bytes32)
        ensures
            r@ == bytes@,
    {
        Bytes32 { bytes }
    }

    /// Byte-for-byte comparison; the executable meaning of `==` on roots.
    pub fn same(&self, other: &Bytes32) -> (r: bool)
        ensures
            r == (self@ == other@),
    {
        let mut i: usize = 0;
        while i < 32
            invariant
                0 <= i <= 32,
                forall|j: int| 0 <= j < i ==> self.bytes@[j] == other.bytes@[j],
            decreases 32 - i,
        {
            if self.bytes[i] != other.bytes[i] {
                assert(self@ != other@);
                return false;
            }
            i = i + 1;
        }
        proof {
            assert(self.bytes@ =~= other.bytes@);
        }
        true
    }
}

/// Identity of one L2 block: the fields of its sealed header that the driver
/// loop reads. The full header stays with the host, keyed by `hash`.
#[derive(Clone, Copy, Debug)]
pub struct L2BlockId {
    pub number: u64,
    pub hash: Bytes32,
    pub parent_hash: Bytes32,
    pub timestamp: u64,
}

/// The L1 reference point that made an L2 block derivable.
#[derive(Clone, Copy, Debug)]
pub struct OriginMarker {
    pub number: u64,
    pub hash: Bytes32,
}

/// The slice of the rollup's protocol configuration that the driver loop
/// consults: the two activation boundaries that change its control flow.
#[derive(Clone, Copy, Debug)]
pub struct RollupConfig {
    /// Timestamp at which the deposit-only retry policy becomes the canonical
    /// response to an execution failure. `None` if never active.
    pub holocene_time: Option<u64>,
    /// Point from which the chain takes part in cross-chain interoperability,
    /// so that source exhaustion must be escalated to the caller.
    pub interop_time: Option<u64>,
}

impl RollupConfig {
    /// Is the deposit-only retry policy in force for a block at `timestamp`?
    pub open spec fn holocene_active(&self, timestamp: u64) -> bool {
        match self.holocene_time {
            Some(t) => timestamp >= t,
            None => false,
        }
    }

    /// Is interoperability mode in force at `position` (the current safe
    /// head's number, as the driver loop supplies it)?
    pub open spec fn interop_active(&self, position: u64) -> bool {
        match self.interop_time {
            Some(t) => position >= t,
            None => false,
        }
    }

    pub fn is_holocene_active(&self, timestamp: u64) -> (r: bool)
        ensures
            r == self.holocene_active(timestamp),
    {
        match self.holocene_time {
            Some(t) => timestamp >= t,
            None => false,
        }
    }

    pub fn is_interop_active(&self, position: u64) -> (r: bool)
        ensures
            r == self.interop_active(position),
    {
        match self.interop_time {
            Some(t) => position >= t,
            None => false,
        }
    }
}

/// The committed claim (boot info): loaded once from untrusted input,
/// validated by the prologue, and returned verbatim on success.
#[derive(Clone, Copy, Debug)]
pub struct ClaimRecord {
    /// L1 reference point the witness data was committed against.
    pub l1_head: Bytes32,
    /// Output root of the agreed starting L2 state.
    pub agreed_l2_output_root: Bytes32,
    /// Output root the claim says the chain reaches.
    pub claimed_l2_output_root: Bytes32,
    /// L2 block number the claim is made at.
    pub claimed_l2_block_number: u64,
    /// Protocol configuration the run is carried out under.
    pub config: RollupConfig,
}

/// Candidate block attributes, produced fresh each iteration by the pipeline
/// for a specific parent tip. Each transaction is carried in its canonical
/// byte encoding; the deposit-only retry policy may replace the list with a
/// filtered subset before a second execution attempt.
#[derive(Clone, Debug)]
pub struct Attributes {
    pub timestamp: u64,
    pub transactions: Option<Vec<Vec<u8>>>,
}

/// Mathematical shape of [`Attributes`]: the transaction list as a sequence
/// of byte sequences.
pub ghost struct AttributesModel {
    pub timestamp: u64,
    pub transactions: Option<Seq<Seq<u8>>>,
}

impl View for Attributes {
    type V = AttributesModel;

    open spec fn view(&self) -> AttributesModel {
        AttributesModel { timestamp: self.timestamp, transactions: self.transactions.deep_view() }
    }
}

} // verus!
