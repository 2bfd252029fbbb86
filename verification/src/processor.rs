//! The escrow state machine.
//!
//! Each command works on a fixed, positional list of caller-supplied
//! accounts, re-validates every invariant from those inputs alone, and
//! only then mutates them. A call either performs its whole effect or,
//! on the first failed check, returns an error with every account left
//! exactly as it was; the host ledger applies a call's effects
//! all-or-nothing, so an error makes the call observationally a no-op.
//!
//! The signer flags stand for the host's signature verification, and the
//! custodian address for the derived, key-less authority the host computes
//! from the protocol's identity and a fixed seed; both are established at
//! the boundary before the state machine runs.

use vstd::prelude::*;

use crate::error::EscrowError;
use crate::state::spec_empty_record;
use crate::state::Address;
use crate::state::EscrowAccount;
use crate::state::EscrowRecord;
use crate::state::NativeAccount;
use crate::state::TokenAccount;

verus! {

/// The account list an `InitEscrow` command works on, in its fixed
/// positional order: the initializer (who must have signed), the asset
/// account being placed in escrow, the address that is to receive the
/// counter-asset, the record account, the minimum-balance threshold the
/// host demands for the record account's size, and the custodian address.
#[derive(Clone, Copy, Debug, PartialEq, Eq, Structural)]
pub struct InitEscrowAccounts {
    pub initializer: Address,
    /// Whether the initializer signed the call.
    pub initializer_is_signer: bool,
    pub temp_asset_account: TokenAccount,
    pub initializer_receiving_account: Address,
    pub escrow_account: EscrowAccount,
    /// The host's minimum-balance requirement for the record account.
    pub rent_minimum_balance: u64,
    /// The program-derived custodian address.
    pub custodian: Address,
}

/// When `InitEscrow` succeeds: the initializer signed, the record account
/// meets the minimum-balance threshold, the record slot is still empty,
/// and the initializer owns the asset account whose custody is handed
/// over (the ownership transfer is authorized by the initializer's
/// signature, so any other owner makes it fail).
pub open spec fn init_ok(a: InitEscrowAccounts) -> bool {
    &&& a.initializer_is_signer
    &&& a.escrow_account.deposit >= a.rent_minimum_balance
    &&& !a.escrow_account.record.is_initialized
    &&& a.temp_asset_account.owner == a.initializer
}

/// The error a failing `InitEscrow` reports. A missing signature is
/// detected first; an under-funded record account is the one condition
/// with its own code, `NotRentExempt`.
pub open spec fn init_error(a: InitEscrowAccounts) -> EscrowError {
    if a.initializer_is_signer && a.escrow_account.deposit < a.rent_minimum_balance {
        EscrowError::NotRentExempt
    } else {
        EscrowError::InvalidInstruction
    }
}

/// The record a successful `InitEscrow` writes.
pub open spec fn init_record(a: InitEscrowAccounts, amount: u64) -> EscrowRecord {
    EscrowRecord {
        is_initialized: true,
        initializer: a.initializer,
        temp_asset_account: a.temp_asset_account.address,
        initializer_receiving_account: a.initializer_receiving_account,
        expected_amount: amount,
    }
}

/// The account state a successful `InitEscrow` leaves behind: the record
/// is populated and custody of the asset account has passed to the
/// custodian; nothing else changes.
pub open spec fn init_applied(a: InitEscrowAccounts, amount: u64) -> InitEscrowAccounts {
    InitEscrowAccounts {
        temp_asset_account: TokenAccount { owner: a.custodian, ..a.temp_asset_account },
        escrow_account: EscrowAccount { record: init_record(a, amount), ..a.escrow_account },
        ..a
    }
}

/// What `InitEscrow` does to a given account list: the new state on
/// success, the reported error otherwise.
pub open spec fn init_result(a: InitEscrowAccounts, amount: u64) -> Result<
    InitEscrowAccounts,
    EscrowError,
> {
    if init_ok(a) {
        Ok(init_applied(a, amount))
    } else {
        Err(init_error(a))
    }
}

/// Starts a swap: validates the account list, writes the escrow record,
/// and hands custody of the deposited asset account to the custodian.
///
/// `amount` is the counter-asset amount the initializer expects. On any
/// failed check the accounts are left exactly as they were.
pub fn process_init_escrow(accounts: &mut InitEscrowAccounts, amount: u64) -> (r: Result<
    (),
    EscrowError,
>)
    ensures
        match init_result(*old(accounts), amount) {
            Ok(next) => r == Ok::<(), EscrowError>(()) && *final(accounts) == next,
            Err(e) => r == Err::<(), EscrowError>(e) && *final(accounts) == *old(accounts),
        },
{
    if !accounts.initializer_is_signer {
        return Err(EscrowError::InvalidInstruction);
    }
    if accounts.escrow_account.deposit < accounts.rent_minimum_balance {
        return Err(EscrowError::NotRentExempt);
    }
    if accounts.escrow_account.record.is_initialized {
        return Err(EscrowError::InvalidInstruction);
    }
    if accounts.temp_asset_account.owner != accounts.initializer {
        return Err(EscrowError::InvalidInstruction);
    }
    accounts.escrow_account.record = EscrowRecord {
        is_initialized: true,
        initializer: accounts.initializer,
        temp_asset_account: accounts.temp_asset_account.address,
        initializer_receiving_account: accounts.initializer_receiving_account,
        expected_amount: amount,
    };
    accounts.temp_asset_account.owner = accounts.custodian;
    Ok(())
}

/// The account list an `Exchange` command works on, in its fixed
/// positional order: the taker (who must have signed), the taker's source
/// account for the counter-asset, the taker's destination account for the
/// escrowed asset, the custodian-held asset account, the initializer's
/// main account (which gets the reclaimed deposits), the initializer's
/// receiving account for the counter-asset, the record account, and the
/// custodian address.
#[derive(Clone, Copy, Debug, PartialEq, Eq, Structural)]
pub struct ExchangeAccounts {
    pub taker: Address,
    /// Whether the taker signed the call.
    pub taker_is_signer: bool,
    pub taker_source_account: TokenAccount,
    pub taker_destination_account: TokenAccount,
    pub temp_asset_account: TokenAccount,
    pub initializer_main_account: NativeAccount,
    pub initializer_receiving_account: TokenAccount,
    pub escrow_account: EscrowAccount,
    /// The program-derived custodian address.
    pub custodian: Address,
}

/// When `Exchange` succeeds. `amount` is the escrowed amount the taker
/// expects to receive and must match the custodial account's actual
/// balance; `taker_offered_amount` is the counter-asset amount the taker
/// pays in this call and must match the record's price. The supplied
/// accounts must be the very ones the record binds, the custodian must
/// hold the escrowed asset, the taker must own and be able to fund the
/// source of the payment, and each credited balance must have room for
/// its credit.
pub open spec fn exchange_ok(a: ExchangeAccounts, amount: u64, taker_offered_amount: u64) -> bool {
    &&& a.taker_is_signer
    &&& a.escrow_account.record.is_initialized
    &&& a.temp_asset_account.balance == amount
    &&& a.escrow_account.record.expected_amount == taker_offered_amount
    &&& a.temp_asset_account.address == a.escrow_account.record.temp_asset_account
    &&& a.initializer_receiving_account.address
        == a.escrow_account.record.initializer_receiving_account
    &&& a.initializer_main_account.address == a.escrow_account.record.initializer
    &&& a.temp_asset_account.owner == a.custodian
    &&& a.taker_source_account.owner == a.taker
    &&& a.taker_source_account.balance >= taker_offered_amount
    &&& a.initializer_receiving_account.balance + taker_offered_amount <= u64::MAX
    &&& a.taker_destination_account.balance + a.temp_asset_account.balance <= u64::MAX
    &&& a.initializer_main_account.deposit + a.temp_asset_account.deposit + a.escrow_account.deposit
        <= u64::MAX
}

/// The account state a successful `Exchange` leaves behind: the taker's
/// payment has moved to the initializer's receiving account, the whole
/// escrowed balance has moved to the taker's destination account, and the
/// custodial account and the record account are closed, their deposits
/// returned to the initializer's main account.
pub open spec fn exchange_applied(
    a: ExchangeAccounts,
    amount: u64,
    taker_offered_amount: u64,
) -> ExchangeAccounts
    recommends
        exchange_ok(a, amount, taker_offered_amount),
{
    ExchangeAccounts {
        taker_source_account: TokenAccount {
            balance: (a.taker_source_account.balance - taker_offered_amount) as u64,
            ..a.taker_source_account
        },
        taker_destination_account: TokenAccount {
            balance: (a.taker_destination_account.balance + a.temp_asset_account.balance) as u64,
            ..a.taker_destination_account
        },
        temp_asset_account: TokenAccount { balance: 0u64, deposit: 0u64, ..a.temp_asset_account },
        initializer_main_account: NativeAccount {
            deposit: (a.initializer_main_account.deposit + a.temp_asset_account.deposit
                + a.escrow_account.deposit) as u64,
            ..a.initializer_main_account
        },
        initializer_receiving_account: TokenAccount {
            balance: (a.initializer_receiving_account.balance + taker_offered_amount) as u64,
            ..a.initializer_receiving_account
        },
        escrow_account: EscrowAccount { deposit: 0u64, record: spec_empty_record(), ..a.escrow_account },
        ..a
    }
}

/// What `Exchange` does to a given account list: the new state on
/// success, `InvalidInstruction` otherwise (every validation failure of
/// `Exchange` is an invalid-account condition).
pub open spec fn exchange_result(
    a: ExchangeAccounts,
    amount: u64,
    taker_offered_amount: u64,
) -> Result<ExchangeAccounts, EscrowError> {
    if exchange_ok(a, amount, taker_offered_amount) {
        Ok(exchange_applied(a, amount, taker_offered_amount))
    } else {
        Err(EscrowError::InvalidInstruction)
    }
}

/// Completes a swap: validates the account list against the record, pays
/// the initializer from the taker's source account, releases the whole
/// escrowed balance to the taker, and closes both the custodial account
/// and the record account, returning their deposits to the initializer.
///
/// `amount` is the escrowed amount the taker expects (their safety
/// assertion against a stale or altered price); `taker_offered_amount` is
/// the counter-asset amount the taker pays, which must equal the record's
/// price. The two transfer legs and the two closures happen only
/// together: on any failed check the accounts are left exactly as they
/// were and nothing has moved.
pub fn process_exchange(
    accounts: &mut ExchangeAccounts,
    amount: u64,
    taker_offered_amount: u64,
) -> (r: Result<(), EscrowError>)
    ensures
        match exchange_result(*old(accounts), amount, taker_offered_amount) {
            Ok(next) => r == Ok::<(), EscrowError>(()) && *final(accounts) == next,
            Err(e) => r == Err::<(), EscrowError>(e) && *final(accounts) == *old(accounts),
        },
{
    if !accounts.taker_is_signer {
        return Err(EscrowError::InvalidInstruction);
    }
    if !accounts.escrow_account.record.is_initialized {
        return Err(EscrowError::InvalidInstruction);
    }
    if accounts.temp_asset_account.balance != amount {
        return Err(EscrowError::InvalidInstruction);
    }
    if accounts.escrow_account.record.expected_amount != taker_offered_amount {
        return Err(EscrowError::InvalidInstruction);
    }
    if accounts.temp_asset_account.address != accounts.escrow_account.record.temp_asset_account {
        return Err(EscrowError::InvalidInstruction);
    }
    if accounts.initializer_receiving_account.address
        != accounts.escrow_account.record.initializer_receiving_account {
        return Err(EscrowError::InvalidInstruction);
    }
    if accounts.initializer_main_account.address != accounts.escrow_account.record.initializer {
        return Err(EscrowError::InvalidInstruction);
    }
    if accounts.temp_asset_account.owner != accounts.custodian {
        return Err(EscrowError::InvalidInstruction);
    }
    if accounts.taker_source_account.owner != accounts.taker {
        return Err(EscrowError::InvalidInstruction);
    }
    if accounts.taker_source_account.balance < taker_offered_amount {
        return Err(EscrowError::InvalidInstruction);
    }
    if taker_offered_amount > u64::MAX - accounts.initializer_receiving_account.balance {
        return Err(EscrowError::InvalidInstruction);
    }
    if accounts.temp_asset_account.balance > u64::MAX
        - accounts.taker_destination_account.balance {
        return Err(EscrowError::InvalidInstruction);
    }
    if accounts.temp_asset_account.deposit > u64::MAX - accounts.initializer_main_account.deposit {
        return Err(EscrowError::InvalidInstruction);
    }
    if accounts.escrow_account.deposit > u64::MAX - (accounts.initializer_main_account.deposit
        + accounts.temp_asset_account.deposit) {
        return Err(EscrowError::InvalidInstruction);
    }
    // Leg A: the taker pays the initializer the agreed price.
    accounts.taker_source_account.balance = accounts.taker_source_account.balance
        - taker_offered_amount;
    accounts.initializer_receiving_account.balance = accounts.initializer_receiving_account.balance
        + taker_offered_amount;
    // Leg B: the custodian releases the whole escrowed balance to the taker.
    accounts.taker_destination_account.balance = accounts.taker_destination_account.balance
        + accounts.temp_asset_account.balance;
    accounts.temp_asset_account.balance = 0;
    // Close the custodial account and the record account, returning both
    // deposits to the initializer.
    accounts.initializer_main_account.deposit = accounts.initializer_main_account.deposit
        + accounts.temp_asset_account.deposit;
    accounts.initializer_main_account.deposit = accounts.initializer_main_account.deposit
        + accounts.escrow_account.deposit;
    accounts.temp_asset_account.deposit = 0;
    accounts.escrow_account.deposit = 0;
    accounts.escrow_account.record = EscrowRecord::empty();
    Ok(())
}

/// `InitEscrow` on a record account below the minimum-balance threshold
/// fails with `NotRentExempt`; by the contract of
/// [`process_init_escrow`] a failing call leaves every account — the
/// record slot included — exactly as it was. The initializer must have
/// signed: an unsigned call fails first, with the authorization error.
pub proof fn lemma_init_not_rent_exempt(a: InitEscrowAccounts, amount: u64)
    requires
        a.initializer_is_signer,
        a.escrow_account.deposit < a.rent_minimum_balance,
    ensures
        init_result(a, amount) == Err::<InitEscrowAccounts, EscrowError>(
            EscrowError::NotRentExempt,
        ),
{
}

/// `InitEscrow` without the initializer's signature always fails; by the
/// contract of [`process_init_escrow`] a failing call changes nothing, so
/// in particular no ownership transfer of the asset account happens.
pub proof fn lemma_init_unsigned_fails(a: InitEscrowAccounts, amount: u64)
    requires
        !a.initializer_is_signer,
    ensures
        init_result(a, amount) == Err::<InitEscrowAccounts, EscrowError>(
            EscrowError::InvalidInstruction,
        ),
{
}

/// A successful `InitEscrow` followed by an `Exchange` whose taker
/// expects exactly the escrowed balance and pays exactly the agreed
/// price succeeds, and results in: the initializer's receiving account
/// increased by the taker's payment, the taker's destination account
/// increased by exactly the escrowed balance, the custodial account and
/// the record account both closed, and the initializer's main account
/// credited with both reclaimed deposits.
///
/// The `Exchange` call must hand back the record account and the
/// custodial account as `InitEscrow` left them, together with the
/// accounts the record binds; the taker must have signed, own a source
/// account funded for the price, and each credited balance must have
/// room for its credit.
pub proof fn lemma_init_then_exchange_succeeds(
    ia: InitEscrowAccounts,
    expected_amount: u64,
    ea: ExchangeAccounts,
    amount: u64,
)
    requires
        init_result(ia, expected_amount) is Ok,
        ea.escrow_account == init_result(ia, expected_amount)->Ok_0.escrow_account,
        ea.temp_asset_account == init_result(ia, expected_amount)->Ok_0.temp_asset_account,
        ea.custodian == ia.custodian,
        ea.initializer_main_account.address == ia.initializer,
        ea.initializer_receiving_account.address == ia.initializer_receiving_account,
        ea.taker_is_signer,
        ea.taker_source_account.owner == ea.taker,
        amount == ea.temp_asset_account.balance,
        ea.taker_source_account.balance >= expected_amount,
        ea.initializer_receiving_account.balance + expected_amount <= u64::MAX,
        ea.taker_destination_account.balance + ea.temp_asset_account.balance <= u64::MAX,
        ea.initializer_main_account.deposit + ea.temp_asset_account.deposit
            + ea.escrow_account.deposit <= u64::MAX,
    ensures
        exchange_result(ea, amount, expected_amount) is Ok,
        ({
            let done = exchange_result(ea, amount, expected_amount)->Ok_0;
            &&& done.initializer_receiving_account.balance
                == ea.initializer_receiving_account.balance + expected_amount
            &&& done.taker_destination_account.balance == ea.taker_destination_account.balance
                + ea.temp_asset_account.balance
            &&& done.taker_source_account.balance == ea.taker_source_account.balance
                - expected_amount
            &&& done.temp_asset_account.balance == 0
            &&& done.temp_asset_account.deposit == 0
            &&& done.escrow_account.deposit == 0
            &&& done.escrow_account.record == spec_empty_record()
            &&& done.initializer_main_account.deposit == ea.initializer_main_account.deposit
                + ea.temp_asset_account.deposit + ea.escrow_account.deposit
        }),
{
}

/// An `Exchange` whose taker-expected amount differs from the custodial
/// account's actual balance fails; by the contract of
/// [`process_exchange`] a failing call performs no transfer at all.
pub proof fn lemma_exchange_amount_mismatch_fails(
    a: ExchangeAccounts,
    amount: u64,
    taker_offered_amount: u64,
)
    requires
        a.temp_asset_account.balance != amount,
    ensures
        exchange_result(a, amount, taker_offered_amount) == Err::<ExchangeAccounts, EscrowError>(
            EscrowError::InvalidInstruction,
        ),
{
}

/// An `Exchange` whose supplied custodial account or receiving account is
/// not the one the record binds fails; by the contract of
/// [`process_exchange`] a failing call performs no transfer at all.
pub proof fn lemma_exchange_address_mismatch_fails(
    a: ExchangeAccounts,
    amount: u64,
    taker_offered_amount: u64,
)
    requires
        a.temp_asset_account.address != a.escrow_account.record.temp_asset_account
            || a.initializer_receiving_account.address
            != a.escrow_account.record.initializer_receiving_account,
    ensures
        exchange_result(a, amount, taker_offered_amount) == Err::<ExchangeAccounts, EscrowError>(
            EscrowError::InvalidInstruction,
        ),
{
}

/// A successful `Exchange` closes the record, and a second `Exchange`
/// against that closed record fails with the invalid-account condition,
/// whatever the other accounts and amounts of the second call are: the
/// record is no longer initialized.
pub proof fn lemma_exchange_not_repeatable(
    a: ExchangeAccounts,
    amount: u64,
    taker_offered_amount: u64,
    b: ExchangeAccounts,
    second_amount: u64,
    second_offered_amount: u64,
)
    requires
        exchange_result(a, amount, taker_offered_amount) is Ok,
        b.escrow_account == exchange_result(a, amount, taker_offered_amount)->Ok_0.escrow_account,
    ensures
        exchange_result(b, second_amount, second_offered_amount) == Err::<
            ExchangeAccounts,
            EscrowError,
        >(EscrowError::InvalidInstruction),
{
}

} // verus!
