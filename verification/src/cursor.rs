//! Append-only history of verified chain tips. The driver loop is the only
//! writer; it appends exactly one entry per accepted block, and block numbers
//! are strictly increasing across entries.

use vstd::prelude::*;

use crate::types::{Bytes32, L2BlockId, OriginMarker};

verus! {

/// One verified L2 block: its identity and the output root this system
/// recomputed for it. The root is never copied from an external claim.
#[derive(Clone, Copy, Debug)]
pub struct TipCursor {
    pub l2_safe_head: L2BlockId,
    pub l2_safe_head_output_root: Bytes32,
}

/// A verified tip together with the L1 origin that produced it.
#[derive(Clone, Copy, Debug)]
pub struct CursorEntry {
    pub origin: OriginMarker,
    pub tip: TipCursor,
}

/// Ordered, append-only sequence of verified tips. Always holds at least the
/// entry it was created with; the latest entry is the current safe head.
#[derive(Clone, Debug)]
pub struct CursorHistory {
    entries: Vec<CursorEntry>,
}

/// Block numbers are strictly increasing across successive entries.
pub open spec fn entries_monotonic(entries: Seq<CursorEntry>) -> bool {
    forall|i: int, j: int|
        0 <= i < j < entries.len()
            ==> #[trigger] entries[i].tip.l2_safe_head.number
                < #[trigger] entries[j].tip.l2_safe_head.number
}

/// Appending an entry whose number lies strictly beyond the last one keeps
/// the history monotonic.
pub proof fn lemma_monotonic_push(entries: Seq<CursorEntry>, entry: CursorEntry)
    requires
        entries_monotonic(entries),
        entries.len() >= 1,
        entry.tip.l2_safe_head.number > entries.last().tip.l2_safe_head.number,
    ensures
        entries_monotonic(entries.push(entry)),
{
    let s = entries.push(entry);
    let n = entries.len() as int;
    assert forall|i: int, j: int| 0 <= i < j < s.len() implies #[trigger] s[i].tip.l2_safe_head.number
        < #[trigger] s[j].tip.l2_safe_head.number by {
        if j < n {
            assert(entries[i].tip.l2_safe_head.number < entries[j].tip.l2_safe_head.number);
        } else {
            if i < n - 1 {
                assert(entries[i].tip.l2_safe_head.number < entries[n - 1].tip.l2_safe_head.number);
            }
        }
    }
}

impl View for CursorHistory {
    type V = Seq<CursorEntry>;

    closed spec fn view(&self) -> Seq<CursorEntry> {
        self.entries@
    }
}

impl CursorHistory {
    pub open spec fn well_formed(&self) -> bool {
        &&& self@.len() >= 1
        &&& entries_monotonic(self@)
    }

    /// Latest entry: the current safe head and the origin that produced it.
    pub open spec fn tip_spec(&self) -> TipCursor {
        self@.last().tip
    }

    pub fn new(origin: OriginMarker, tip: TipCursor) -> (r: CursorHistory)
        ensures
            r.well_formed(),
            r@ == seq![CursorEntry { origin, tip }],
    {
        let mut entries: Vec<CursorEntry> = Vec::new();
        entries.push(CursorEntry { origin, tip });
        proof {
            assert(entries@ =~= seq![CursorEntry { origin, tip }]);
        }
        CursorHistory { entries }
    }

    pub fn len(&self) -> (r: usize)
        ensures
            r == self@.len(),
    {
        self.entries.len()
    }

    /// Current safe head.
    pub fn tip(&self) -> (r: TipCursor)
        requires
            self.well_formed(),
        ensures
            r == self.tip_spec(),
    {
        self.entries[self.entries.len() - 1].tip
    }

    /// Entry at position `i`, oldest first.
    pub fn entry(&self, i: usize) -> (r: CursorEntry)
        requires
            i < self@.len(),
        ensures
            r == self@[i as int],
    {
        self.entries[i]
    }

    /// Record one accepted block. The new tip's number must lie strictly
    /// beyond the current safe head's, which keeps the history monotonic.
    pub fn advance(&mut self, origin: OriginMarker, tip: TipCursor)
        requires
            old(self).well_formed(),
            tip.l2_safe_head.number > old(self).tip_spec().l2_safe_head.number,
        ensures
            final(self).well_formed(),
            final(self)@ == old(self)@.push(CursorEntry { origin, tip }),
            final(self).tip_spec() == tip,
    {
        proof {
            lemma_monotonic_push(self@, CursorEntry { origin, tip });
        }
        self.entries.push(CursorEntry { origin, tip });
    }
}

/// Monotonicity law: in any well-formed history, the tip numbers of two
/// entries grow strictly with their position, so no two recorded tips share
/// a block number.
pub proof fn lemma_tip_numbers_strictly_increasing(h: CursorHistory, i: int, j: int)
    requires
        h.well_formed(),
        0 <= i < j < h@.len(),
    ensures
        h@[i].tip.l2_safe_head.number < h@[j].tip.l2_safe_head.number,
{
}

} // verus!
