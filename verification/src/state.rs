//! Plain-value models of the ledger state the protocol reads and writes.
//!
//! The protocol has no private memory: every invariant is re-derived each
//! call from the caller-supplied account slots. These types carry exactly
//! what the state machine inspects of an account — its address, who may
//! move its funds, its asset balance, and the native deposit that pays for
//! its storage. The host ledger that actually persists them is outside the
//! crate.

use vstd::prelude::*;

verus! {

/// An account address on the host ledger.
///
/// The custodian address is such an address too: a deterministic,
/// key-less value derived by the host from the protocol's identity and a
/// fixed seed, handed in with the account list and verified by
/// recomputation at the boundary.
#[derive(Clone, Copy, Debug, PartialEq, Eq, Structural)]
pub struct Address {
    pub value: u64,
}

impl Address {
    /// The all-zero address a closed account slot is left with.
    pub fn zero() -> (a: Address)
        ensures
            a == (Address { value: 0u64 }),
    {
        Address { value: 0 }
    }
}

/// An asset-holding account of the external ledger.
#[derive(Clone, Copy, Debug, PartialEq, Eq, Structural)]
pub struct TokenAccount {
    /// The account's own address.
    pub address: Address,
    /// The sole authority able to move the account's balance or close it.
    pub owner: Address,
    /// The asset units the account holds.
    pub balance: u64,
    /// The native deposit that keeps the account stored; returned to a
    /// beneficiary when the account is closed.
    pub deposit: u64,
}

/// A plain native account, tracked only for the deposits it receives back
/// when escrow accounts are closed.
#[derive(Clone, Copy, Debug, PartialEq, Eq, Structural)]
pub struct NativeAccount {
    pub address: Address,
    pub deposit: u64,
}

/// The record one in-flight swap persists in the escrow account, created
/// by `InitEscrow` and consumed by `Exchange`.
#[derive(Clone, Copy, Debug, PartialEq, Eq, Structural)]
pub struct EscrowRecord {
    /// Discriminates a live record from an empty, zeroed account slot; a
    /// record is either fully absent or fully populated.
    pub is_initialized: bool,
    /// The party that created the record; receives the reclaimed deposits
    /// when the swap completes.
    pub initializer: Address,
    /// The account holding the deposited asset, custody of which passes
    /// to the custodian at initialization.
    pub temp_asset_account: Address,
    /// Where the counter-asset must be delivered.
    pub initializer_receiving_account: Address,
    /// The price set at initialization; authoritative for the swap and
    /// immutable thereafter.
    pub expected_amount: u64,
}

/// The zeroed record of an empty or closed escrow account slot.
pub open spec fn spec_empty_record() -> EscrowRecord {
    EscrowRecord {
        is_initialized: false,
        initializer: Address { value: 0u64 },
        temp_asset_account: Address { value: 0u64 },
        initializer_receiving_account: Address { value: 0u64 },
        expected_amount: 0u64,
    }
}

impl EscrowRecord {
    /// Returns the zeroed record a closed escrow account slot is left
    /// with.
    pub fn empty() -> (r: EscrowRecord)
        ensures
            r == spec_empty_record(),
    {
        EscrowRecord {
            is_initialized: false,
            initializer: Address { value: 0 },
            temp_asset_account: Address { value: 0 },
            initializer_receiving_account: Address { value: 0 },
            expected_amount: 0,
        }
    }
}

/// The account that persists an [`EscrowRecord`].
#[derive(Clone, Copy, Debug, PartialEq, Eq, Structural)]
pub struct EscrowAccount {
    /// The account's own address.
    pub address: Address,
    /// The native deposit that keeps the record stored; it must meet the
    /// host's minimum-balance threshold for the record to be durable.
    pub deposit: u64,
    /// The persisted record; `is_initialized == false` means the slot is
    /// empty.
    pub record: EscrowRecord,
}

} // verus!
