//! A trustless, two-party token-swap escrow protocol.
//!
//! A custodian holds one party's asset until a second party supplies the
//! agreed counter-asset, then both transfers execute atomically or not at
//! all. The crate has two components:
//!
//! * the instruction codec ([`instruction`]), which decodes a raw byte
//!   buffer into a typed command, and
//! * the escrow state machine ([`processor`]), which validates a decoded
//!   command against the caller-supplied account list, mutates the escrow
//!   record, and carries out the two transfer legs of the swap.
//!
//! Account state is modelled by the plain-value types of [`state`]; the
//! host ledger that persists accounts, verifies signatures and applies a
//! call's effects all-or-nothing sits outside this crate.

pub mod error;
pub mod instruction;
pub mod processor;
pub mod state;
