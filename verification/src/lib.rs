//! Verification core of a rollup fault-proof client: given an agreed starting
//! L2 output root, a claimed ending output root, and authenticated witness
//! data, the client re-derives and re-executes L2 blocks until it can confirm
//! or refute the claim.
//!
//! This library holds the verified heart of that client: the claim record and
//! chain-tip data model, the prologue and epilogue validation rules, the
//! deposit-only retry policy, and the derivation-execution driver loop as an
//! explicit state machine. The derivation pipeline, the state-transition
//! executor and the preimage oracle are external collaborators: a host runs
//! them, feeds their outcomes to the state machine as events, and performs the
//! action each state calls for.

pub mod client;
pub mod cursor;
pub mod deposit;
pub mod driver;
pub mod epilogue;
pub mod prologue;
pub mod txdecode;
pub mod types;

use vstd::prelude::*;

verus! {

/// Leading type marker of a deposit transaction in its canonical encoding.
pub const DEPOSIT_TX_TYPE: u8 = 0x7E;

} // verus!
