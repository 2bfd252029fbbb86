use escrow::error::EscrowError;
use escrow::instruction::EscrowInstruction;
use escrow::processor::process_exchange;
use escrow::processor::process_init_escrow;
use escrow::processor::ExchangeAccounts;
use escrow::processor::InitEscrowAccounts;
use escrow::state::Address;
use escrow::state::EscrowAccount;
use escrow::state::EscrowRecord;
use escrow::state::NativeAccount;
use escrow::state::TokenAccount;

fn addr(value: u64) -> Address {
    Address { value }
}

/// A well-formed `InitEscrow` account list: signed, rent-exempt record
/// account with an empty slot, asset account owned by the initializer.
fn init_accounts() -> InitEscrowAccounts {
    InitEscrowAccounts {
        initializer: addr(1),
        initializer_is_signer: true,
        temp_asset_account: TokenAccount {
            address: addr(2),
            owner: addr(1),
            balance: 500,
            deposit: 30,
        },
        initializer_receiving_account: addr(3),
        escrow_account: EscrowAccount {
            address: addr(4),
            deposit: 100,
            record: EscrowRecord::empty(),
        },
        rent_minimum_balance: 90,
        custodian: addr(9),
    }
}

/// The `Exchange` account list that matches what a successful
/// `init_accounts()` run leaves behind, with a taker able to pay
/// `expected` counter-asset units.
fn exchange_accounts_after(init: &InitEscrowAccounts) -> ExchangeAccounts {
    ExchangeAccounts {
        taker: addr(20),
        taker_is_signer: true,
        taker_source_account: TokenAccount {
            address: addr(21),
            owner: addr(20),
            balance: 1000,
            deposit: 25,
        },
        taker_destination_account: TokenAccount {
            address: addr(22),
            owner: addr(20),
            balance: 40,
            deposit: 25,
        },
        temp_asset_account: init.temp_asset_account,
        initializer_main_account: NativeAccount {
            address: addr(1),
            deposit: 7000,
        },
        initializer_receiving_account: TokenAccount {
            address: addr(3),
            owner: addr(1),
            balance: 11,
            deposit: 25,
        },
        escrow_account: init.escrow_account,
        custodian: addr(9),
    }
}

fn le_bytes(tag: u8, amount: u64) -> Vec<u8> {
    let mut v = vec![tag];
    let mut a = amount;
    for _ in 0..8 {
        v.push((a & 0xff) as u8);
        a >>= 8;
    }
    v
}

#[test]
fn unpack_rejects_empty_buffer() {
    assert_eq!(
        EscrowInstruction::unpack(&[]),
        Err(EscrowError::InvalidInstruction)
    );
}

#[test]
fn unpack_rejects_short_buffers() {
    for len in 1..9 {
        let buf = vec![0u8; len];
        assert_eq!(
            EscrowInstruction::unpack(&buf),
            Err(EscrowError::InvalidInstruction),
            "buffer of {} bytes must be rejected",
            len
        );
        let buf = vec![1u8; len];
        assert_eq!(
            EscrowInstruction::unpack(&buf),
            Err(EscrowError::InvalidInstruction)
        );
    }
}

#[test]
fn unpack_rejects_unknown_tags() {
    for tag in [2u8, 3, 7, 128, 255] {
        let buf = le_bytes(tag, 42);
        assert_eq!(
            EscrowInstruction::unpack(&buf),
            Err(EscrowError::InvalidInstruction),
            "tag {} must be rejected",
            tag
        );
    }
}

#[test]
fn unpack_decodes_init_escrow() {
    let buf = le_bytes(0, 123456);
    assert_eq!(
        EscrowInstruction::unpack(&buf),
        Ok(EscrowInstruction::InitEscrow { amount: 123456 })
    );
}

#[test]
fn unpack_decodes_exchange() {
    let buf = le_bytes(1, u64::MAX);
    assert_eq!(
        EscrowInstruction::unpack(&buf),
        Ok(EscrowInstruction::Exchange { amount: u64::MAX })
    );
}

#[test]
fn unpack_reads_amount_little_endian() {
    let buf = [0u8, 0x01, 0x02, 0x03, 0x04, 0x05, 0x06, 0x07, 0x08];
    assert_eq!(
        EscrowInstruction::unpack(&buf),
        Ok(EscrowInstruction::InitEscrow {
            amount: 0x0807060504030201
        })
    );
}

#[test]
fn unpack_ignores_trailing_bytes() {
    let mut buf = le_bytes(1, 55);
    buf.extend_from_slice(&[0xde, 0xad, 0xbe, 0xef]);
    assert_eq!(
        EscrowInstruction::unpack(&buf),
        Ok(EscrowInstruction::Exchange { amount: 55 })
    );
}

#[test]
fn error_codes_are_distinct() {
    assert_eq!(EscrowError::InvalidInstruction.code(), 0);
    assert_eq!(EscrowError::NotRentExempt.code(), 1);
}

#[test]
fn init_escrow_populates_record_and_hands_over_custody() {
    let mut a = init_accounts();
    assert_eq!(process_init_escrow(&mut a, 750), Ok(()));
    assert_eq!(
        a.escrow_account.record,
        EscrowRecord {
            is_initialized: true,
            initializer: addr(1),
            temp_asset_account: addr(2),
            initializer_receiving_account: addr(3),
            expected_amount: 750,
        }
    );
    assert_eq!(a.temp_asset_account.owner, addr(9));
    assert_eq!(a.temp_asset_account.balance, 500);
    assert_eq!(a.escrow_account.deposit, 100);
}

#[test]
fn init_escrow_below_minimum_balance_fails_not_rent_exempt() {
    let mut a = init_accounts();
    a.escrow_account.deposit = 89;
    let before = a;
    assert_eq!(
        process_init_escrow(&mut a, 750),
        Err(EscrowError::NotRentExempt)
    );
    assert_eq!(a, before, "a failing call must write no record");
}

#[test]
fn init_escrow_unsigned_fails_and_transfers_nothing() {
    let mut a = init_accounts();
    a.initializer_is_signer = false;
    let before = a;
    assert_eq!(
        process_init_escrow(&mut a, 750),
        Err(EscrowError::InvalidInstruction)
    );
    assert_eq!(a, before, "an unsigned call must change no ownership");
}

#[test]
fn init_escrow_rejects_live_record() {
    let mut a = init_accounts();
    assert_eq!(process_init_escrow(&mut a, 750), Ok(()));
    let before = a;
    assert_eq!(
        process_init_escrow(&mut a, 800),
        Err(EscrowError::InvalidInstruction)
    );
    assert_eq!(a, before, "re-initialization must not overwrite the record");
}

#[test]
fn init_escrow_rejects_foreign_asset_account() {
    let mut a = init_accounts();
    a.temp_asset_account.owner = addr(6);
    let before = a;
    assert_eq!(
        process_init_escrow(&mut a, 750),
        Err(EscrowError::InvalidInstruction)
    );
    assert_eq!(a, before);
}

#[test]
fn full_swap_moves_both_legs_and_closes_both_accounts() {
    let mut a = init_accounts();
    assert_eq!(process_init_escrow(&mut a, 750), Ok(()));
    let mut e = exchange_accounts_after(&a);
    assert_eq!(process_exchange(&mut e, 500, 750), Ok(()));
    // Leg A: the taker paid the agreed price to the initializer.
    assert_eq!(e.taker_source_account.balance, 250);
    assert_eq!(e.initializer_receiving_account.balance, 761);
    // Leg B: the whole escrowed balance went to the taker.
    assert_eq!(e.taker_destination_account.balance, 540);
    assert_eq!(e.temp_asset_account.balance, 0);
    // Both escrow-side accounts are closed and their deposits reclaimed.
    assert_eq!(e.temp_asset_account.deposit, 0);
    assert_eq!(e.escrow_account.deposit, 0);
    assert_eq!(e.initializer_main_account.deposit, 7000 + 30 + 100);
    assert_eq!(e.escrow_account.record, EscrowRecord::empty());
}

#[test]
fn exchange_amount_mismatch_fails_with_zero_transfers() {
    let mut a = init_accounts();
    assert_eq!(process_init_escrow(&mut a, 750), Ok(()));
    let mut e = exchange_accounts_after(&a);
    let before = e;
    // The taker expects 499 units but 500 are escrowed.
    assert_eq!(
        process_exchange(&mut e, 499, 750),
        Err(EscrowError::InvalidInstruction)
    );
    assert_eq!(e, before, "a failing exchange must move nothing");
}

#[test]
fn exchange_offer_mismatch_fails_with_zero_transfers() {
    let mut a = init_accounts();
    assert_eq!(process_init_escrow(&mut a, 750), Ok(()));
    let mut e = exchange_accounts_after(&a);
    let before = e;
    // The taker offers 749 counter-asset units but the price is 750.
    assert_eq!(
        process_exchange(&mut e, 500, 749),
        Err(EscrowError::InvalidInstruction)
    );
    assert_eq!(e, before);
}

#[test]
fn exchange_wrong_temp_account_fails() {
    let mut a = init_accounts();
    assert_eq!(process_init_escrow(&mut a, 750), Ok(()));
    let mut e = exchange_accounts_after(&a);
    e.temp_asset_account.address = addr(99);
    let before = e;
    assert_eq!(
        process_exchange(&mut e, 500, 750),
        Err(EscrowError::InvalidInstruction)
    );
    assert_eq!(e, before);
}

#[test]
fn exchange_wrong_receiving_account_fails() {
    let mut a = init_accounts();
    assert_eq!(process_init_escrow(&mut a, 750), Ok(()));
    let mut e = exchange_accounts_after(&a);
    e.initializer_receiving_account.address = addr(99);
    let before = e;
    assert_eq!(
        process_exchange(&mut e, 500, 750),
        Err(EscrowError::InvalidInstruction)
    );
    assert_eq!(e, before);
}

#[test]
fn exchange_wrong_main_account_fails() {
    let mut a = init_accounts();
    assert_eq!(process_init_escrow(&mut a, 750), Ok(()));
    let mut e = exchange_accounts_after(&a);
    e.initializer_main_account.address = addr(99);
    let before = e;
    assert_eq!(
        process_exchange(&mut e, 500, 750),
        Err(EscrowError::InvalidInstruction)
    );
    assert_eq!(e, before);
}

#[test]
fn exchange_unsigned_taker_fails() {
    let mut a = init_accounts();
    assert_eq!(process_init_escrow(&mut a, 750), Ok(()));
    let mut e = exchange_accounts_after(&a);
    e.taker_is_signer = false;
    let before = e;
    assert_eq!(
        process_exchange(&mut e, 500, 750),
        Err(EscrowError::InvalidInstruction)
    );
    assert_eq!(e, before);
}

#[test]
fn exchange_wrong_custodian_fails() {
    let mut a = init_accounts();
    assert_eq!(process_init_escrow(&mut a, 750), Ok(()));
    let mut e = exchange_accounts_after(&a);
    e.custodian = addr(8);
    let before = e;
    assert_eq!(
        process_exchange(&mut e, 500, 750),
        Err(EscrowError::InvalidInstruction)
    );
    assert_eq!(e, before);
}

#[test]
fn exchange_underfunded_taker_fails() {
    let mut a = init_accounts();
    assert_eq!(process_init_escrow(&mut a, 750), Ok(()));
    let mut e = exchange_accounts_after(&a);
    e.taker_source_account.balance = 749;
    let before = e;
    assert_eq!(
        process_exchange(&mut e, 500, 750),
        Err(EscrowError::InvalidInstruction)
    );
    assert_eq!(e, before);
}

#[test]
fn exchange_with_no_room_for_credit_fails() {
    let mut a = init_accounts();
    assert_eq!(process_init_escrow(&mut a, 750), Ok(()));
    let mut e = exchange_accounts_after(&a);
    e.initializer_receiving_account.balance = u64::MAX - 749;
    let before = e;
    assert_eq!(
        process_exchange(&mut e, 500, 750),
        Err(EscrowError::InvalidInstruction)
    );
    assert_eq!(e, before);
}

#[test]
fn exchange_on_empty_record_fails() {
    let a = init_accounts();
    let mut e = exchange_accounts_after(&a);
    let before = e;
    assert_eq!(
        process_exchange(&mut e, 500, 750),
        Err(EscrowError::InvalidInstruction)
    );
    assert_eq!(e, before);
}

#[test]
fn second_exchange_against_closed_record_fails() {
    let mut a = init_accounts();
    assert_eq!(process_init_escrow(&mut a, 750), Ok(()));
    let mut e = exchange_accounts_after(&a);
    assert_eq!(process_exchange(&mut e, 500, 750), Ok(()));
    let before = e;
    assert_eq!(
        process_exchange(&mut e, 500, 750),
        Err(EscrowError::InvalidInstruction),
        "the record is closed, so a second exchange must fail"
    );
    assert_eq!(e, before);
    // Even a second call that restates the closed state's figures fails:
    // the record is no longer initialized.
    assert_eq!(
        process_exchange(&mut e, 0, 0),
        Err(EscrowError::InvalidInstruction)
    );
}

#[test]
fn closed_record_slot_is_fully_zeroed() {
    let r = EscrowRecord::empty();
    assert!(!r.is_initialized);
    assert_eq!(r.initializer, addr(0));
    assert_eq!(r.temp_asset_account, addr(0));
    assert_eq!(r.initializer_receiving_account, addr(0));
    assert_eq!(r.expected_amount, 0);
    assert_eq!(Address::zero(), addr(0));
}
