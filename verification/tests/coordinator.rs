//! Tests of the escrow coordinator: opening, settling, and every refusal.

#![allow(deprecated)]

use escrow::custody::{custody_close, custody_transfer};
use escrow::error::EscrowError;
use escrow::host::MAX_ACCOUNT_DATA_LEN;
use escrow::ledger::{Address, AssetAccount, Principal, RawAccount, RecordAccount};
use escrow::processor::{EscrowCall, OpenAccounts, Processor, SettleAccounts};
use escrow::state::{unpack_record, EscrowRecord, RECORD_LEN};
use solana_program::program_pack::Pack;

/// The custody service's identity in these tests.
const CUSTODY: [u8; 32] = [9u8; 32];

fn addr(b: u8) -> Address {
    Address::new([b; 32])
}

/// A valid, initialized custody-service account holding `amount`, as the
/// service itself lays it out on the ledger.
fn token_account_bytes(amount: u64) -> Vec<u8> {
    let acc = spl_token::state::Account {
        owner: spl_token::solana_program::pubkey::Pubkey::new_from_array([11u8; 32]),
        amount,
        state: spl_token::state::AccountState::Initialized,
        ..Default::default()
    };
    let mut buf = vec![0u8; spl_token::state::Account::LEN];
    spl_token::state::Account::pack(acc, &mut buf).unwrap();
    buf
}

fn record_rent() -> u64 {
    solana_program::rent::Rent::default().minimum_balance(RECORD_LEN)
}

fn pda_bytes(program_id: &Address) -> [u8; 32] {
    let pid = solana_program::pubkey::Pubkey::new_from_array(program_id.bytes);
    let (pda, _bump) = solana_program::pubkey::Pubkey::find_program_address(&[b"escrow"], &pid);
    pda.to_bytes()
}

fn open_accounts() -> OpenAccounts {
    OpenAccounts {
        initializer: Principal {
            key: addr(1),
            is_signer: true,
            lamports: 50,
        },
        holding: AssetAccount {
            key: addr(2),
            authority: addr(1),
            amount: 1000,
            lamports: 30,
            initialized: true,
        },
        initializer_dest: RawAccount {
            key: addr(3),
            owner_program: Address::new(CUSTODY),
            data: token_account_bytes(0),
        },
        record: RecordAccount {
            lamports: record_rent(),
            data: vec![0u8; RECORD_LEN],
        },
        custody_program: Address::new(CUSTODY),
    }
}

fn init_input(amount: u64) -> Vec<u8> {
    let mut v = vec![0u8];
    v.extend_from_slice(&amount.to_le_bytes());
    v
}

fn exchange_input(amount: u64) -> Vec<u8> {
    let mut v = vec![1u8];
    v.extend_from_slice(&amount.to_le_bytes());
    v
}

fn do_open(
    program_id: &Address,
    accounts: OpenAccounts,
    amount: u64,
) -> (OpenAccounts, Result<(), EscrowError>) {
    let mut call = EscrowCall::Open(accounts);
    let r = Processor::process(program_id, &init_input(amount), &mut call);
    let EscrowCall::Open(a) = call else {
        panic!("call variant changed")
    };
    (a, r)
}

fn settle_accounts_after(opened: OpenAccounts) -> SettleAccounts {
    SettleAccounts {
        taker: Principal {
            key: addr(4),
            is_signer: true,
            lamports: 7,
        },
        taker_source: AssetAccount {
            key: addr(5),
            authority: addr(4),
            amount: 700,
            lamports: 10,
            initialized: true,
        },
        taker_dest: AssetAccount {
            key: addr(6),
            authority: addr(4),
            amount: 1,
            lamports: 10,
            initialized: true,
        },
        holding: opened.holding,
        initializer: Principal {
            key: addr(1),
            is_signer: false,
            lamports: 100,
        },
        initializer_dest: AssetAccount {
            key: addr(3),
            authority: addr(1),
            amount: 2,
            lamports: 10,
            initialized: true,
        },
        record: opened.record,
    }
}

fn do_settle(
    program_id: &Address,
    accounts: SettleAccounts,
    amount: u64,
) -> (SettleAccounts, Result<(), EscrowError>) {
    let mut call = EscrowCall::Settle(accounts);
    let r = Processor::process(program_id, &exchange_input(amount), &mut call);
    let EscrowCall::Settle(a) = call else {
        panic!("call variant changed")
    };
    (a, r)
}

fn assert_settle_unchanged(a: &SettleAccounts, before: &SettleAccounts) {
    assert_eq!(a.taker_source.amount, before.taker_source.amount);
    assert_eq!(a.taker_dest.amount, before.taker_dest.amount);
    assert_eq!(a.holding.amount, before.holding.amount);
    assert_eq!(a.holding.lamports, before.holding.lamports);
    assert!(a.holding.initialized);
    assert_eq!(a.initializer.lamports, before.initializer.lamports);
    assert_eq!(a.initializer_dest.amount, before.initializer_dest.amount);
    assert_eq!(a.record.lamports, before.record.lamports);
    assert_eq!(a.record.data, before.record.data);
}

#[test]
fn open_succeeds_and_hands_holding_to_derived_authority() {
    let pid = addr(8);
    let (a, r) = do_open(&pid, open_accounts(), 500);
    assert_eq!(r, Ok(()));
    assert_eq!(a.holding.authority.bytes, pda_bytes(&pid));
    assert_eq!(a.holding.amount, 1000);
    assert_eq!(a.record.lamports, record_rent());
    match unpack_record(&a.record.data) {
        Ok(EscrowRecord::Open {
            initializer,
            holding,
            initializer_dest,
            expected_amount,
        }) => {
            assert_eq!(initializer.bytes, [1u8; 32]);
            assert_eq!(holding.bytes, [2u8; 32]);
            assert_eq!(initializer_dest.bytes, [3u8; 32]);
            assert_eq!(expected_amount, 500);
        }
        other => panic!("record not written: {other:?}"),
    }
}

#[test]
fn open_requires_signer() {
    let mut accounts = open_accounts();
    accounts.initializer.is_signer = false;
    let (a, r) = do_open(&addr(8), accounts, 500);
    assert_eq!(r, Err(EscrowError::MissingSigner));
    assert_eq!(a.record.data, vec![0u8; RECORD_LEN]);
    assert_eq!(a.holding.authority.bytes, [1u8; 32]);
}

#[test]
fn open_requires_custody_namespace() {
    let mut accounts = open_accounts();
    accounts.initializer_dest.owner_program = addr(7);
    let (_, r) = do_open(&addr(8), accounts, 500);
    assert_eq!(r, Err(EscrowError::IncorrectOwner));
}

#[test]
fn open_requires_decodable_destination() {
    let mut accounts = open_accounts();
    accounts.initializer_dest.data = vec![1u8; 10];
    let (_, r) = do_open(&addr(8), accounts, 500);
    assert_eq!(r, Err(EscrowError::InvalidAccountData));

    // The right length but an uninitialized custody account is refused too.
    let mut accounts = open_accounts();
    accounts.initializer_dest.data = vec![0u8; 165];
    let (_, r) = do_open(&addr(8), accounts, 500);
    assert_eq!(r, Err(EscrowError::InvalidAccountData));
}

#[test]
fn open_refuses_oversize_record_slots() {
    // Larger than any account the host permits: refused outright, before
    // the rent rule (which is undefined past the host's cap) is consulted.
    let mut accounts = open_accounts();
    accounts.record.data = vec![0u8; MAX_ACCOUNT_DATA_LEN + 1];
    let (_, r) = do_open(&addr(8), accounts, 500);
    assert_eq!(r, Err(EscrowError::InvalidAccountData));
}

#[test]
fn open_requires_rent_exemption() {
    let mut accounts = open_accounts();
    accounts.record.lamports = record_rent() - 1;
    let (a, r) = do_open(&addr(8), accounts, 500);
    assert_eq!(r, Err(EscrowError::NotRentExempt));
    assert_eq!(a.record.data, vec![0u8; RECORD_LEN]);
}

#[test]
fn open_requires_holding_authority() {
    let mut accounts = open_accounts();
    accounts.holding.authority = addr(7);
    let (_, r) = do_open(&addr(8), accounts, 500);
    assert_eq!(r, Err(EscrowError::AuthorityMismatch));
}

#[test]
fn open_twice_fails_and_keeps_the_record() {
    let pid = addr(8);
    let (a, r) = do_open(&pid, open_accounts(), 500);
    assert_eq!(r, Ok(()));
    let first_record = a.record.data.clone();
    let first_authority = a.holding.authority.bytes;
    let (a, r) = do_open(&pid, a, 900);
    assert_eq!(r, Err(EscrowError::AlreadyInitialized));
    assert_eq!(a.record.data, first_record);
    assert_eq!(a.holding.authority.bytes, first_authority);
}

#[test]
fn settle_end_to_end() {
    let pid = addr(8);
    let (opened, r) = do_open(&pid, open_accounts(), 500);
    assert_eq!(r, Ok(()));
    let (a, r) = do_settle(&pid, settle_accounts_after(opened), 1000);
    assert_eq!(r, Ok(()));
    assert_eq!(a.taker_dest.amount, 1001);
    assert_eq!(a.taker_source.amount, 200);
    assert_eq!(a.initializer_dest.amount, 502);
    assert_eq!(a.holding.amount, 0);
    assert_eq!(a.holding.lamports, 0);
    assert!(!a.holding.initialized);
    assert_eq!(a.initializer.lamports, 100 + 30 + record_rent());
    assert_eq!(a.record.lamports, 0);
    assert_eq!(a.record.data, vec![0u8; RECORD_LEN]);
}

#[test]
fn settle_rejects_wrong_asserted_amount() {
    let pid = addr(8);
    let (opened, r) = do_open(&pid, open_accounts(), 500);
    assert_eq!(r, Ok(()));
    let before = settle_accounts_after(opened);
    let (a, r) = do_settle(&pid, before, 999);
    let (opened2, _) = do_open(&pid, open_accounts(), 500);
    let before = settle_accounts_after(opened2);
    assert_eq!(r, Err(EscrowError::ExpectedAmountMismatch));
    assert_settle_unchanged(&a, &before);
}

#[test]
fn settle_rejects_substituted_accounts() {
    let pid = addr(8);
    for field in 0..3 {
        let (opened, r) = do_open(&pid, open_accounts(), 500);
        assert_eq!(r, Ok(()));
        let mut accounts = settle_accounts_after(opened);
        match field {
            0 => accounts.holding.key = addr(13),
            1 => accounts.initializer.key = addr(13),
            _ => accounts.initializer_dest.key = addr(13),
        }
        let before_source = accounts.taker_source.amount;
        let before_dest = accounts.taker_dest.amount;
        let before_holding = accounts.holding.amount;
        let before_init = accounts.initializer.lamports;
        let before_init_dest = accounts.initializer_dest.amount;
        let before_record = accounts.record.data.clone();
        let (a, r) = do_settle(&pid, accounts, 1000);
        assert_eq!(r, Err(EscrowError::InvalidAccountData), "field {field}");
        assert_eq!(a.taker_source.amount, before_source);
        assert_eq!(a.taker_dest.amount, before_dest);
        assert_eq!(a.holding.amount, before_holding);
        assert_eq!(a.initializer.lamports, before_init);
        assert_eq!(a.initializer_dest.amount, before_init_dest);
        assert_eq!(a.record.data, before_record);
    }
}

#[test]
fn settle_rejects_rent_reclaim_overflow() {
    let pid = addr(8);

    // The holding account's own rent already overflows the initializer.
    let (opened, r) = do_open(&pid, open_accounts(), 500);
    assert_eq!(r, Ok(()));
    let mut accounts = settle_accounts_after(opened);
    accounts.initializer.lamports = u64::MAX - 10;
    let before = accounts.initializer.lamports;
    let before_record = accounts.record.data.clone();
    let (a, r) = do_settle(&pid, accounts, 1000);
    assert_eq!(r, Err(EscrowError::Overflow));
    assert_eq!(a.initializer.lamports, before);
    assert_eq!(a.taker_source.amount, 700);
    assert_eq!(a.record.data, before_record);

    // The holding rent fits but the record's rent does not.
    let (opened, r) = do_open(&pid, open_accounts(), 500);
    assert_eq!(r, Ok(()));
    let mut accounts = settle_accounts_after(opened);
    accounts.initializer.lamports = u64::MAX - 30 - 5;
    let before = accounts.initializer.lamports;
    let (a, r) = do_settle(&pid, accounts, 1000);
    assert_eq!(r, Err(EscrowError::Overflow));
    assert_eq!(a.initializer.lamports, before);
    assert_eq!(a.taker_source.amount, 700);
}

#[test]
fn settle_replay_is_refused() {
    let pid = addr(8);
    let (opened, r) = do_open(&pid, open_accounts(), 500);
    assert_eq!(r, Ok(()));
    let (a, r) = do_settle(&pid, settle_accounts_after(opened), 1000);
    assert_eq!(r, Ok(()));
    let after_source = a.taker_source.amount;
    let after_init = a.initializer.lamports;
    let (a, r) = do_settle(&pid, a, 1000);
    assert_eq!(r, Err(EscrowError::UninitializedAccount));
    assert_eq!(a.taker_source.amount, after_source);
    assert_eq!(a.initializer.lamports, after_init);
}

#[test]
fn settle_requires_signer() {
    let pid = addr(8);
    let (opened, r) = do_open(&pid, open_accounts(), 500);
    assert_eq!(r, Ok(()));
    let mut accounts = settle_accounts_after(opened);
    accounts.taker.is_signer = false;
    let (_, r) = do_settle(&pid, accounts, 1000);
    assert_eq!(r, Err(EscrowError::MissingSigner));
}

#[test]
fn settle_requires_funded_taker() {
    let pid = addr(8);
    let (opened, r) = do_open(&pid, open_accounts(), 500);
    assert_eq!(r, Ok(()));
    let mut accounts = settle_accounts_after(opened);
    accounts.taker_source.amount = 499;
    let (a, r) = do_settle(&pid, accounts, 1000);
    assert_eq!(r, Err(EscrowError::InsufficientFunds));
    assert_eq!(a.taker_source.amount, 499);
    assert_eq!(a.initializer_dest.amount, 2);
}

#[test]
fn settle_requires_derived_authority_over_holding() {
    let pid = addr(8);
    let (opened, r) = do_open(&pid, open_accounts(), 500);
    assert_eq!(r, Ok(()));
    let mut accounts = settle_accounts_after(opened);
    accounts.holding.authority = addr(14);
    let (a, r) = do_settle(&pid, accounts, 1000);
    assert_eq!(r, Err(EscrowError::AuthorityMismatch));
    assert_eq!(a.taker_dest.amount, 1);
    // the payment leg was not kept either: all or nothing
    assert_eq!(a.taker_source.amount, 700);
    assert_eq!(a.initializer_dest.amount, 2);
}

#[test]
fn settle_requires_a_live_record() {
    let pid = addr(8);
    let mut accounts = settle_accounts_after(open_accounts());
    accounts.record.data = vec![0u8; RECORD_LEN];
    let (_, r) = do_settle(&pid, accounts, 1000);
    assert_eq!(r, Err(EscrowError::UninitializedAccount));
}

#[test]
fn command_and_accounts_must_match() {
    let pid = addr(8);
    let mut call = EscrowCall::Settle(settle_accounts_after(open_accounts()));
    let r = Processor::process(&pid, &init_input(500), &mut call);
    assert_eq!(r, Err(EscrowError::InvalidAccountData));

    let mut call = EscrowCall::Open(open_accounts());
    let r = Processor::process(&pid, &exchange_input(1000), &mut call);
    assert_eq!(r, Err(EscrowError::InvalidAccountData));

    let mut call = EscrowCall::Open(open_accounts());
    let r = Processor::process(&pid, &[2u8; 9], &mut call);
    assert_eq!(r, Err(EscrowError::InvalidInstruction));
}

#[test]
fn custody_transfer_moves_exactly_the_amount() {
    let mut source = AssetAccount {
        key: addr(1),
        authority: addr(2),
        amount: 10,
        lamports: 5,
        initialized: true,
    };
    let mut dest = AssetAccount {
        key: addr(3),
        authority: addr(4),
        amount: 7,
        lamports: 5,
        initialized: true,
    };
    assert_eq!(custody_transfer(&mut source, &mut dest, &addr(2), 4), Ok(()));
    assert_eq!(source.amount, 6);
    assert_eq!(dest.amount, 11);

    assert_eq!(
        custody_transfer(&mut source, &mut dest, &addr(9), 1),
        Err(EscrowError::AuthorityMismatch)
    );
    dest.amount = u64::MAX;
    assert_eq!(
        custody_transfer(&mut source, &mut dest, &addr(2), 1),
        Err(EscrowError::Overflow)
    );
    assert_eq!(source.amount, 6);
}

#[test]
fn custody_refuses_closed_accounts() {
    let mut source = AssetAccount {
        key: addr(1),
        authority: addr(2),
        amount: 10,
        lamports: 5,
        initialized: false,
    };
    let mut dest = AssetAccount {
        key: addr(3),
        authority: addr(4),
        amount: 7,
        lamports: 5,
        initialized: true,
    };
    assert_eq!(
        custody_transfer(&mut source, &mut dest, &addr(2), 4),
        Err(EscrowError::UninitializedAccount)
    );
    assert_eq!(source.amount, 10);
    assert_eq!(dest.amount, 7);
}

#[test]
fn custody_close_requires_an_empty_account() {
    let mut acct = AssetAccount {
        key: addr(1),
        authority: addr(2),
        amount: 3,
        lamports: 5,
        initialized: true,
    };
    let mut recipient = Principal {
        key: addr(6),
        is_signer: false,
        lamports: 40,
    };
    assert_eq!(
        custody_close(&mut acct, &mut recipient, &addr(2)),
        Err(EscrowError::NonZeroBalance)
    );
    acct.amount = 0;
    assert_eq!(custody_close(&mut acct, &mut recipient, &addr(2)), Ok(()));
    assert_eq!(recipient.lamports, 45);
    assert_eq!(acct.lamports, 0);
    assert!(!acct.initialized);
}
