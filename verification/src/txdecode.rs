//! Decoding an accepted block's transactions from their canonical encoding.
//! The driver's rule is that one malformed transaction fails the whole block:
//! a decode failure indicates adversarial or corrupted input and must never
//! be skipped silently.

use vstd::prelude::*;

use crate::driver::DriverError;

verus! {

/// Whether `tx` is a well-formed canonical transaction encoding: exactly the
/// inputs on which the envelope decoder succeeds, a function of the bytes
/// alone.
pub uninterp spec fn op_tx_decodes(tx: Seq<u8>) -> bool;

/// Relies on the RLP decoding of `op_alloy_consensus::OpTxEnvelope`
/// (`alloy_rlp::Decodable::decode`, written by its `TransactionEnvelope`
/// derive): whether a byte string decodes, and to which envelope, depends on
/// the bytes alone.
#[verifier::external_body]
fn decode_op_tx(tx: &Vec<u8>) -> (r: Result<op_alloy_consensus::OpTxEnvelope, alloy_rlp::Error>)
    ensures
        r is Ok <==> op_tx_decodes(tx@),
{
    let mut buf: &[u8] = tx.as_slice();
    alloy_rlp::Decodable::decode(&mut buf)
}

#[verifier::external_type_specification]
#[verifier::external_body]
pub struct ExOpTxEnvelope(op_alloy_consensus::OpTxEnvelope);

#[verifier::external_type_specification]
#[verifier::external_body]
pub struct ExRlpError(alloy_rlp::Error);

/// Decode every transaction of an accepted block, in order. Succeeds exactly
/// when every entry is a well-formed canonical encoding; one malformed entry
/// fails the block with the fatal decode error.
pub fn decode_transactions(txs: &Vec<Vec<u8>>) -> (r: Result<
    Vec<op_alloy_consensus::OpTxEnvelope>,
    DriverError,
>)
    ensures
        r is Ok <==> (forall|k: int| 0 <= k < txs@.len() ==> op_tx_decodes(#[trigger] txs@[k]@)),
        r matches Ok(decoded) ==> decoded@.len() == txs@.len(),
        r is Err ==> r->Err_0 == DriverError::TxDecode,
{
    let mut decoded: Vec<op_alloy_consensus::OpTxEnvelope> = Vec::new();
    let mut i: usize = 0;
    while i < txs.len()
        invariant
            0 <= i <= txs@.len(),
            decoded@.len() == i,
            forall|k: int| 0 <= k < i ==> op_tx_decodes(#[trigger] txs@[k]@),
        decreases txs@.len() - i,
    {
        match decode_op_tx(&txs[i]) {
            Ok(tx) => decoded.push(tx),
            Err(_) => {
                return Err(DriverError::TxDecode);
            },
        }
        i = i + 1;
    }
    Ok(decoded)
}

} // verus!
