//! A bandwidth market's prepay contract program and the metering of a gatekeeper session.
//!
//! The contract program (`state`, `instruction`, `processor`) keeps three keys in one ledger
//! account and moves its balance on `Spend` and `Refund`. The session (`accumulator`, `session`,
//! `contract`, `pubsub`) decides, read by read, what to forward and what to settle.

use vstd::prelude::*;

pub mod accumulator;
pub mod contract;
pub mod instruction;
pub mod le_bytes;
pub mod processor;
pub mod pubkey;
pub mod pubsub;
pub mod session;
pub mod state;

verus! {

} // verus!
