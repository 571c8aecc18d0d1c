//! The deposit-only retry policy's pure half: filtering a candidate block's
//! transaction list down to the mandatory deposit transactions, the minimal
//! fallback content a post-activation block may be retried with.

use vstd::prelude::*;

use crate::DEPOSIT_TX_TYPE;

verus! {

/// A transaction, in its canonical byte encoding, is a deposit exactly when
/// its leading type marker says so.
pub open spec fn is_deposit_tx(tx: Seq<u8>) -> bool {
    tx.len() > 0 && tx[0] == DEPOSIT_TX_TYPE
}

/// The deposit transactions of `txs`, in their original order.
pub open spec fn deposit_filter(txs: Seq<Seq<u8>>) -> Seq<Seq<u8>>
    decreases txs.len(),
{
    if txs.len() == 0 {
        Seq::empty()
    } else if is_deposit_tx(txs.last()) {
        deposit_filter(txs.drop_last()).push(txs.last())
    } else {
        deposit_filter(txs.drop_last())
    }
}

/// Every transaction the filter keeps is a deposit, and it keeps no more
/// transactions than it was given.
pub proof fn lemma_deposit_filter_sound(txs: Seq<Seq<u8>>)
    ensures
        forall|k: int| 0 <= k < deposit_filter(txs).len() ==> is_deposit_tx(#[trigger] deposit_filter(txs)[k]),
        deposit_filter(txs).len() <= txs.len(),
    decreases txs.len(),
{
    if txs.len() > 0 {
        lemma_deposit_filter_sound(txs.drop_last());
    }
}

/// A list of deposits alone passes the filter unchanged.
pub proof fn lemma_deposit_filter_complete(txs: Seq<Seq<u8>>)
    requires
        forall|k: int| 0 <= k < txs.len() ==> is_deposit_tx(#[trigger] txs[k]),
    ensures
        deposit_filter(txs) == txs,
    decreases txs.len(),
{
    if txs.len() == 0 {
        assert(deposit_filter(txs) =~= txs);
    } else {
        lemma_deposit_filter_complete(txs.drop_last());
        assert(deposit_filter(txs.drop_last()).push(txs.last()) =~= txs);
    }
}

/// Retain exactly the transactions whose leading type marker identifies them
/// as deposits, keeping their order.
pub fn filter_deposit_only(txs: Vec<Vec<u8>>) -> (r: Vec<Vec<u8>>)
    ensures
        r.deep_view() == deposit_filter(txs.deep_view()),
{
    let ghost all = txs.deep_view();
    let mut r: Vec<Vec<u8>> = Vec::new();
    let mut i: usize = 0;
    while i < txs.len()
        invariant
            0 <= i <= txs.len(),
            all == txs.deep_view(),
            r.deep_view() == deposit_filter(all.subrange(0, i as int)),
        decreases txs.len() - i,
    {
        let ghost prefix = all.subrange(0, i as int);
        let tx = &txs[i];
        let keep = tx.len() > 0 && tx[0] == DEPOSIT_TX_TYPE;
        proof {
            assert(all.subrange(0, i + 1).drop_last() =~= prefix);
            assert(all.subrange(0, i + 1).last() == tx.deep_view());
            assert(tx.deep_view() == tx@);
        }
        if keep {
            let kept = tx.clone();
            proof {
                assert(kept@ =~= tx@);
            }
            r.push(kept);
            proof {
                assert(r.deep_view() =~= deposit_filter(all.subrange(0, i + 1)));
            }
        } else {
            proof {
                assert(r.deep_view() =~= deposit_filter(all.subrange(0, i + 1)));
            }
        }
        i = i + 1;
    }
    proof {
        assert(all.subrange(0, txs.deep_view().len() as int) =~= all);
    }
    r
}

} // verus!
