//! The escrow coordinator.
//!
//! [`Processor::process_init_escrow`] validates an Open invocation and, in
//! one step, persists the offer and hands the holding account to the
//! program-derived authority.  [`Processor::process_exchange`] validates a
//! Settle invocation against the stored record and then performs the
//! settlement: the taker pays the demanded counter-asset to the
//! initializer's destination, the whole holding balance goes to the taker,
//! the emptied holding account is closed, and both reclaimed rents go to
//! the initializer while the record returns to its uninitialized state.
//! Either everything happens, or one error comes back and no account has
//! changed at all.

use vstd::prelude::*;

use crate::custody::{
    change_authority_err, close_err, closed_asset, custody_change_authority, custody_close,
    custody_transfer, parse_token_account, token_account_of, transfer_err, transfer_post_dest,
    transfer_post_source,
};
use crate::error::EscrowError;
use crate::host::{
    check_rent_exempt, derive_escrow_authority, pda_of, rent_exempt, MAX_ACCOUNT_DATA_LEN,
};
use crate::instruction::{parse_instruction, EscrowInstruction};
use crate::ledger::{
    address_eq, Address, AssetAccount, AssetAccountView, Principal, PrincipalView, RawAccount,
    RawAccountView, RecordAccount, RecordAccountView,
};
use crate::state::{
    lemma_record_round_trip, pack_record, parse_record, spec_pack_record, spec_zeroed_record,
    unpack_record, EscrowRecord, OpenOfferView, RecordView,
};

verus! {

/// The ordered account references of an Open invocation.
pub struct OpenAccounts {
    /// The opening party; must have signed.
    pub initializer: Principal,
    /// The custody account holding the deposited asset; its authority
    /// moves to the program-derived address.
    pub holding: AssetAccount,
    /// Where the taker's later payment must land; must be a valid account
    /// of the custody service.
    pub initializer_dest: RawAccount,
    /// The storage slot that will persist the offer.
    pub record: RecordAccount,
    /// The custody service's own identity.
    pub custody_program: Address,
}

/// The mathematical value of [`OpenAccounts`].
#[verifier::ext_equal]
pub struct OpenAccountsView {
    pub initializer: PrincipalView,
    pub holding: AssetAccountView,
    pub initializer_dest: RawAccountView,
    pub record: RecordAccountView,
    pub custody_program: Seq<u8>,
}

impl View for OpenAccounts {
    type V = OpenAccountsView;

    open spec fn view(&self) -> OpenAccountsView {
        OpenAccountsView {
            initializer: self.initializer@,
            holding: self.holding@,
            initializer_dest: self.initializer_dest@,
            record: self.record@,
            custody_program: self.custody_program@,
        }
    }
}

/// The ordered account references of a Settle invocation.
pub struct SettleAccounts {
    /// The settling party; must have signed.
    pub taker: Principal,
    /// The taker's account the counter-asset is paid from.
    pub taker_source: AssetAccount,
    /// The taker's account the held asset is delivered to.
    pub taker_dest: AssetAccount,
    /// The holding account named by the record.
    pub holding: AssetAccount,
    /// The initializer principal named by the record; receives both
    /// reclaimed storage rents.
    pub initializer: Principal,
    /// The initializer's destination named by the record; receives the
    /// taker's payment.
    pub initializer_dest: AssetAccount,
    /// The storage slot holding the offer; zeroed by settlement.
    pub record: RecordAccount,
}

/// The mathematical value of [`SettleAccounts`].
#[verifier::ext_equal]
pub struct SettleAccountsView {
    pub taker: PrincipalView,
    pub taker_source: AssetAccountView,
    pub taker_dest: AssetAccountView,
    pub holding: AssetAccountView,
    pub initializer: PrincipalView,
    pub initializer_dest: AssetAccountView,
    pub record: RecordAccountView,
}

impl View for SettleAccounts {
    type V = SettleAccountsView;

    open spec fn view(&self) -> SettleAccountsView {
        SettleAccountsView {
            taker: self.taker@,
            taker_source: self.taker_source@,
            taker_dest: self.taker_dest@,
            holding: self.holding@,
            initializer: self.initializer@,
            initializer_dest: self.initializer_dest@,
            record: self.record@,
        }
    }
}

/// Why an Open invocation is refused, or `None` when it succeeds.  The
/// checks are tried strictly in this order, and the first failing one
/// names the error.
pub open spec fn open_err(v: OpenAccountsView, pda: Seq<u8>, amount: u64) -> Option<EscrowError> {
    if !v.initializer.is_signer {
        Some(EscrowError::MissingSigner)
    } else if v.initializer_dest.owner_program != v.custody_program {
        Some(EscrowError::IncorrectOwner)
    } else if token_account_of(v.initializer_dest.data) is None {
        Some(EscrowError::InvalidAccountData)
    } else if v.record.data.len() > MAX_ACCOUNT_DATA_LEN {
        // No slot this large exists on the host, whose accounts stop at
        // MAX_ACCOUNT_DATA_LEN, and the rent rule is only defined below
        // it; an oversize slot is no record at all.
        Some(EscrowError::InvalidAccountData)
    } else if !rent_exempt(v.record.lamports, v.record.data.len() as usize) {
        Some(EscrowError::NotRentExempt)
    } else {
        match parse_record(v.record.data) {
            None => Some(EscrowError::InvalidAccountData),
            Some(RecordView::Open(_)) => Some(EscrowError::AlreadyInitialized),
            Some(RecordView::Uninitialized) => change_authority_err(v.holding, v.initializer),
        }
    }
}

/// The offer an Open invocation persists.
pub open spec fn opened_offer(v: OpenAccountsView, amount: u64) -> OpenOfferView {
    OpenOfferView {
        initializer: v.initializer.key,
        holding: v.holding.key,
        initializer_dest: v.initializer_dest.key,
        expected_amount: amount,
    }
}

/// The accounts after a successful Open: the offer is persisted and the
/// holding account answers to the program-derived authority; nothing else
/// moves.
pub open spec fn open_post(v: OpenAccountsView, pda: Seq<u8>, amount: u64) -> OpenAccountsView {
    OpenAccountsView {
        holding: AssetAccountView { authority: pda, ..v.holding },
        record: RecordAccountView {
            lamports: v.record.lamports,
            data: spec_pack_record(RecordView::Open(opened_offer(v, amount))),
        },
        ..v
    }
}

/// Why a Settle invocation is refused, or `None` when it succeeds.  The
/// checks are tried strictly in this order — record, signer, the three
/// anti-tamper cross-checks, the asserted balance, then the two transfer
/// legs, the close, and the final rent reclaim — and the first failing
/// one names the error.
pub open spec fn settle_err(v: SettleAccountsView, pda: Seq<u8>, amount: u64) -> Option<
    EscrowError,
> {
    match parse_record(v.record.data) {
        None => Some(EscrowError::InvalidAccountData),
        Some(RecordView::Uninitialized) => Some(EscrowError::UninitializedAccount),
        Some(RecordView::Open(o)) => {
            if !v.taker.is_signer {
                Some(EscrowError::MissingSigner)
            } else if v.holding.key != o.holding {
                Some(EscrowError::InvalidAccountData)
            } else if v.initializer.key != o.initializer {
                Some(EscrowError::InvalidAccountData)
            } else if v.initializer_dest.key != o.initializer_dest {
                Some(EscrowError::InvalidAccountData)
            } else if v.holding.amount != amount {
                Some(EscrowError::ExpectedAmountMismatch)
            } else if transfer_err(
                v.taker_source,
                v.initializer_dest,
                v.taker.key,
                o.expected_amount,
            ) is Some {
                transfer_err(v.taker_source, v.initializer_dest, v.taker.key, o.expected_amount)
            } else if transfer_err(v.holding, v.taker_dest, pda, amount) is Some {
                transfer_err(v.holding, v.taker_dest, pda, amount)
            } else if close_err(
                transfer_post_source(v.holding, amount),
                pda,
                v.initializer,
            ) is Some {
                close_err(transfer_post_source(v.holding, amount), pda, v.initializer)
            } else if v.initializer.lamports + v.holding.lamports + v.record.lamports > u64::MAX {
                Some(EscrowError::Overflow)
            } else {
                None
            }
        },
    }
}

/// The accounts after a successful Settle: payment delivered, holding
/// balance delivered and the holding account closed, both rents reclaimed
/// into the initializer's balance, and the record slot zeroed.
pub open spec fn settle_post(v: SettleAccountsView, pda: Seq<u8>, amount: u64) -> SettleAccountsView {
    match parse_record(v.record.data) {
        Some(RecordView::Open(o)) => SettleAccountsView {
            taker: v.taker,
            taker_source: transfer_post_source(v.taker_source, o.expected_amount),
            taker_dest: transfer_post_dest(v.taker_dest, amount),
            holding: closed_asset(transfer_post_source(v.holding, amount)),
            initializer: PrincipalView {
                lamports: (v.initializer.lamports + v.holding.lamports + v.record.lamports) as u64,
                ..v.initializer
            },
            initializer_dest: transfer_post_dest(v.initializer_dest, o.expected_amount),
            record: RecordAccountView { lamports: 0u64, data: spec_zeroed_record() },
        },
        _ => v,
    }
}

/// One invocation's account references: those of an Open, or those of a
/// Settle.
pub enum EscrowCall {
    Open(OpenAccounts),
    Settle(SettleAccounts),
}

/// The mathematical value of [`EscrowCall`].
pub enum EscrowCallView {
    Open(OpenAccountsView),
    Settle(SettleAccountsView),
}

impl View for EscrowCall {
    type V = EscrowCallView;

    open spec fn view(&self) -> EscrowCallView {
        match self {
            EscrowCall::Open(a) => EscrowCallView::Open(a@),
            EscrowCall::Settle(a) => EscrowCallView::Settle(a@),
        }
    }
}

/// Why a whole invocation is refused, or `None` when it succeeds: the
/// instruction bytes must decode, the program-derived authority must
/// exist, the account references must fit the command, and the command's
/// own checks must pass.
pub open spec fn process_err(pre: EscrowCallView, program_id: Seq<u8>, input: Seq<u8>) -> Option<
    EscrowError,
> {
    match parse_instruction(input) {
        None => Some(EscrowError::InvalidInstruction),
        Some(inst) => match pda_of(program_id) {
            None => Some(EscrowError::InvalidSeeds),
            Some(pq) => match (inst, pre) {
                (EscrowInstruction::InitEscrow { amount }, EscrowCallView::Open(v)) => open_err(
                    v,
                    pq.0,
                    amount,
                ),
                (EscrowInstruction::Exchange { amount }, EscrowCallView::Settle(v)) => settle_err(
                    v,
                    pq.0,
                    amount,
                ),
                _ => Some(EscrowError::InvalidAccountData),
            },
        },
    }
}

/// The accounts after a successful invocation.
pub open spec fn process_post(
    pre: EscrowCallView,
    program_id: Seq<u8>,
    input: Seq<u8>,
) -> EscrowCallView {
    match (parse_instruction(input), pda_of(program_id)) {
        (Some(inst), Some(pq)) => match (inst, pre) {
            (EscrowInstruction::InitEscrow { amount }, EscrowCallView::Open(v)) =>
                EscrowCallView::Open(open_post(v, pq.0, amount)),
            (EscrowInstruction::Exchange { amount }, EscrowCallView::Settle(v)) =>
                EscrowCallView::Settle(settle_post(v, pq.0, amount)),
            _ => pre,
        },
        _ => pre,
    }
}

/// The escrow coordinator: one invocation validates and executes one Open
/// or one Settle, all-or-nothing.
pub struct Processor {}

impl Processor {
    /// Decode the instruction bytes, derive the program authority from the
    /// program identity, and run the selected command on the supplied
    /// account references.
    ///
    /// Succeeds exactly when [`process_err`] is `None`, leaving the
    /// accounts at [`process_post`]; otherwise fails with exactly that
    /// error and changes nothing.
    pub fn process(program_id: &Address, input: &[u8], call: &mut EscrowCall) -> (r: Result<
        (),
        EscrowError,
    >)
        ensures
            match r {
                Ok(()) => process_err(old(call)@, program_id@, input@) is None && final(call)@
                    == process_post(old(call)@, program_id@, input@),
                Err(e) => process_err(old(call)@, program_id@, input@) == Some(e) && final(call)@
                    == old(call)@,
            },
    {
        let inst = match EscrowInstruction::unpack(input) {
            Err(e) => {
                return Err(e);
            },
            Ok(i) => i,
        };
        let pda = match derive_escrow_authority(program_id) {
            None => {
                return Err(EscrowError::InvalidSeeds);
            },
            Some(p) => p.0,
        };
        match inst {
            EscrowInstruction::InitEscrow { amount } => match call {
                EscrowCall::Open(a) => Self::process_init_escrow(&pda, amount, a),
                EscrowCall::Settle(_) => Err(EscrowError::InvalidAccountData),
            },
            EscrowInstruction::Exchange { amount } => match call {
                EscrowCall::Settle(a) => Self::process_exchange(&pda, amount, a),
                EscrowCall::Open(_) => Err(EscrowError::InvalidAccountData),
            },
        }
    }

    /// Open an escrow: persist the offer and hand the holding account to
    /// the program-derived authority `pda`.
    ///
    /// Succeeds exactly when [`open_err`] is `None`, leaving the accounts
    /// at [`open_post`]; otherwise fails with exactly that error and
    /// changes nothing.
    pub fn process_init_escrow(pda: &Address, amount: u64, a: &mut OpenAccounts) -> (r: Result<
        (),
        EscrowError,
    >)
        ensures
            match r {
                Ok(()) => open_err(old(a)@, pda@, amount) is None && final(a)@ == open_post(
                    old(a)@,
                    pda@,
                    amount,
                ),
                Err(e) => open_err(old(a)@, pda@, amount) == Some(e) && final(a)@ == old(a)@,
            },
    {
        if !a.initializer.is_signer {
            return Err(EscrowError::MissingSigner);
        }
        if !address_eq(&a.initializer_dest.owner_program, &a.custody_program) {
            return Err(EscrowError::IncorrectOwner);
        }
        if parse_token_account(&a.initializer_dest.data).is_none() {
            return Err(EscrowError::InvalidAccountData);
        }
        if a.record.data.len() > MAX_ACCOUNT_DATA_LEN {
            return Err(EscrowError::InvalidAccountData);
        }
        if !check_rent_exempt(a.record.lamports, a.record.data.len()) {
            return Err(EscrowError::NotRentExempt);
        }
        match unpack_record(&a.record.data) {
            Err(e) => {
                return Err(e);
            },
            Ok(EscrowRecord::Open { .. }) => {
                return Err(EscrowError::AlreadyInitialized);
            },
            Ok(EscrowRecord::Uninitialized) => {},
        }
        let mut holding = a.holding;
        match custody_change_authority(&mut holding, pda, &a.initializer) {
            Err(e) => {
                return Err(e);
            },
            Ok(()) => {},
        }
        let new_record = EscrowRecord::Open {
            initializer: a.initializer.key,
            holding: a.holding.key,
            initializer_dest: a.initializer_dest.key,
            expected_amount: amount,
        };
        let data = pack_record(&new_record);
        a.holding = holding;
        a.record.data = data;
        assert(final(a)@ =~= open_post(old(a)@, pda@, amount));
        Ok(())
    }

    /// Settle an escrow: execute the payment leg, the delivery leg, the
    /// close of the holding account, and the rent reclaim, in that order.
    ///
    /// Succeeds exactly when [`settle_err`] is `None`, leaving the
    /// accounts at [`settle_post`]; otherwise fails with exactly that
    /// error and changes nothing — no transfer of a failed settlement is
    /// ever visible.
    pub fn process_exchange(pda: &Address, amount: u64, a: &mut SettleAccounts) -> (r: Result<
        (),
        EscrowError,
    >)
        ensures
            match r {
                Ok(()) => settle_err(old(a)@, pda@, amount) is None && final(a)@ == settle_post(
                    old(a)@,
                    pda@,
                    amount,
                ),
                Err(e) => settle_err(old(a)@, pda@, amount) == Some(e) && final(a)@ == old(a)@,
            },
    {
        let rec = match unpack_record(&a.record.data) {
            Err(e) => {
                return Err(e);
            },
            Ok(r) => r,
        };
        let (rec_initializer, rec_holding, rec_dest, expected_amount) = match rec {
            EscrowRecord::Uninitialized => {
                return Err(EscrowError::UninitializedAccount);
            },
            EscrowRecord::Open { initializer, holding, initializer_dest, expected_amount } => (
                initializer,
                holding,
                initializer_dest,
                expected_amount,
            ),
        };
        if !a.taker.is_signer {
            return Err(EscrowError::MissingSigner);
        }
        if !address_eq(&a.holding.key, &rec_holding) {
            return Err(EscrowError::InvalidAccountData);
        }
        if !address_eq(&a.initializer.key, &rec_initializer) {
            return Err(EscrowError::InvalidAccountData);
        }
        if !address_eq(&a.initializer_dest.key, &rec_dest) {
            return Err(EscrowError::InvalidAccountData);
        }
        if a.holding.amount != amount {
            return Err(EscrowError::ExpectedAmountMismatch);
        }
        // Stage every effect on copies; the inputs change only when the
        // whole settlement has gone through.
        let mut taker_source = a.taker_source;
        let mut initializer_dest = a.initializer_dest;
        match custody_transfer(&mut taker_source, &mut initializer_dest, &a.taker.key, expected_amount) {
            Err(e) => {
                return Err(e);
            },
            Ok(()) => {},
        }
        let mut holding = a.holding;
        let mut taker_dest = a.taker_dest;
        match custody_transfer(&mut holding, &mut taker_dest, pda, amount) {
            Err(e) => {
                return Err(e);
            },
            Ok(()) => {},
        }
        let mut initializer = a.initializer;
        match custody_close(&mut holding, &mut initializer, pda) {
            Err(e) => {
                return Err(e);
            },
            Ok(()) => {},
        }
        if a.record.lamports > u64::MAX - initializer.lamports {
            return Err(EscrowError::Overflow);
        }
        initializer.lamports = initializer.lamports + a.record.lamports;
        let zeroed = pack_record(&EscrowRecord::Uninitialized);
        a.taker_source = taker_source;
        a.taker_dest = taker_dest;
        a.holding = holding;
        a.initializer = initializer;
        a.initializer_dest = initializer_dest;
        a.record.lamports = 0;
        a.record.data = zeroed;
        assert(final(a)@ =~= settle_post(old(a)@, pda@, amount));
        Ok(())
    }
}

/// Account references whose addresses are real 32-byte addresses — true
/// of the view of every executable [`OpenAccounts`] value.
pub open spec fn open_accounts_wf(v: OpenAccountsView) -> bool {
    v.initializer.key.len() == 32 && v.holding.key.len() == 32 && v.initializer_dest.key.len()
        == 32
}

/// Law: once an Open has succeeded, any further Open on the same record —
/// whatever amount it asks and whatever authority it derives — is refused
/// with `AlreadyInitialized`; and since a refused Open changes nothing,
/// the record still decodes to exactly the offer the first Open wrote, no
/// field overwritten.
pub proof fn lemma_no_double_open(
    v: OpenAccountsView,
    pda: Seq<u8>,
    pda2: Seq<u8>,
    amount: u64,
    amount2: u64,
)
    requires
        open_accounts_wf(v),
        open_err(v, pda, amount) is None,
    ensures
        open_err(open_post(v, pda, amount), pda2, amount2) == Some(
            EscrowError::AlreadyInitialized,
        ),
        parse_record(open_post(v, pda, amount).record.data) == Some(
            RecordView::Open(opened_offer(v, amount)),
        ),
{
    let offer = opened_offer(v, amount);
    lemma_record_round_trip(RecordView::Open(offer));
    let v1 = open_post(v, pda, amount);
    assert(v1.record.data.len() == v.record.data.len());
}

/// Law: a Settle whose asserted amount differs from the holding account's
/// actual balance is refused with `ExpectedAmountMismatch` — and a refused
/// Settle changes nothing, so the record stays open and untouched.
pub proof fn lemma_amount_mismatch_refused(v: SettleAccountsView, pda: Seq<u8>, amount: u64)
    requires
        parse_record(v.record.data) matches Some(RecordView::Open(o)) && v.taker.is_signer
            && v.holding.key == o.holding && v.initializer.key == o.initializer
            && v.initializer_dest.key == o.initializer_dest,
        v.holding.amount != amount,
    ensures
        settle_err(v, pda, amount) == Some(EscrowError::ExpectedAmountMismatch),
{
}

/// Law: a Settle that substitutes any of the holding account, the
/// initializer, or the initializer's destination for what the record
/// stores is refused with `InvalidAccountData` — before any transfer, as a
/// refused Settle changes no balance at all.
pub proof fn lemma_substituted_accounts_refused(v: SettleAccountsView, pda: Seq<u8>, amount: u64)
    requires
        parse_record(v.record.data) matches Some(RecordView::Open(o)) && v.taker.is_signer && (
        v.holding.key != o.holding || v.initializer.key != o.initializer
            || v.initializer_dest.key != o.initializer_dest),
    ensures
        settle_err(v, pda, amount) == Some(EscrowError::InvalidAccountData),
{
}

/// Law: a Settle that validates and transfers but whose rent reclaim would
/// push the initializer's balance past `u64::MAX` is refused with
/// `Overflow` — and, being refused, leaves every balance and the record
/// unchanged.
pub proof fn lemma_rent_reclaim_overflow_refused(v: SettleAccountsView, pda: Seq<u8>, amount: u64)
    requires
        parse_record(v.record.data) matches Some(RecordView::Open(o)) && v.taker.is_signer
            && v.holding.key == o.holding && v.initializer.key == o.initializer
            && v.initializer_dest.key == o.initializer_dest && v.holding.amount == amount
            && transfer_err(v.taker_source, v.initializer_dest, v.taker.key, o.expected_amount)
            is None && transfer_err(v.holding, v.taker_dest, pda, amount) is None,
        v.initializer.lamports + v.holding.lamports + v.record.lamports > u64::MAX,
    ensures
        settle_err(v, pda, amount) == Some(EscrowError::Overflow),
{
}

/// Law: once a Settle has succeeded, the record slot is uninitialized, so
/// re-submitting any Settle against it — the identical one included — is
/// refused with `UninitializedAccount`, and nothing changes again.
pub proof fn lemma_no_replay(
    v: SettleAccountsView,
    pda: Seq<u8>,
    pda2: Seq<u8>,
    amount: u64,
    amount2: u64,
)
    requires
        settle_err(v, pda, amount) is None,
    ensures
        settle_err(settle_post(v, pda, amount), pda2, amount2) == Some(
            EscrowError::UninitializedAccount,
        ),
{
    assert(parse_record(spec_zeroed_record()) == Some(RecordView::Uninitialized));
}

/// Law: the end-to-end trade.  After a successful Open, a Settle that
/// asserts the holding balance and whose references match the record —
/// the holding account exactly as Open left it, a signed taker whose
/// source account answers to the taker and holds at least the demanded
/// amount, initialized asset accounts, and room within the machine's
/// balance limits — succeeds, and settles exactly: the taker's
/// destination receives the whole holding balance, the taker's source
/// pays the demanded counter-asset amount into the initializer's
/// destination, the holding account ends closed and empty, the record
/// slot ends zeroed, and the initializer's balance grows by both
/// reclaimed rents.
pub proof fn lemma_open_then_settle(
    ov: OpenAccountsView,
    sv: SettleAccountsView,
    pda: Seq<u8>,
    open_amount: u64,
)
    requires
        open_accounts_wf(ov),
        open_err(ov, pda, open_amount) is None,
        sv.record == open_post(ov, pda, open_amount).record,
        sv.holding == open_post(ov, pda, open_amount).holding,
        sv.initializer.key == ov.initializer.key,
        sv.initializer_dest.key == ov.initializer_dest.key,
        sv.taker.is_signer,
        sv.taker_source.initialized && sv.taker_dest.initialized
            && sv.initializer_dest.initialized,
        sv.taker_source.authority == sv.taker.key,
        sv.taker_source.amount >= open_amount,
        sv.taker_dest.amount + sv.holding.amount <= u64::MAX,
        sv.initializer_dest.amount + open_amount <= u64::MAX,
        sv.initializer.lamports + sv.holding.lamports + sv.record.lamports <= u64::MAX,
    ensures
        settle_err(sv, pda, sv.holding.amount) is None,
        ({
            let w = settle_post(sv, pda, sv.holding.amount);
            &&& w.taker_dest.amount == sv.taker_dest.amount + sv.holding.amount
            &&& w.taker_source.amount == sv.taker_source.amount - open_amount
            &&& w.initializer_dest.amount == sv.initializer_dest.amount + open_amount
            &&& w.holding.amount == 0 && w.holding.lamports == 0 && !w.holding.initialized
            &&& w.record.data == spec_zeroed_record() && w.record.lamports == 0
            &&& w.initializer.lamports == sv.initializer.lamports + sv.holding.lamports
                + sv.record.lamports
        }),
{
    lemma_record_round_trip(RecordView::Open(opened_offer(ov, open_amount)));
}

/// Law: settlement creates and destroys nothing of either asset — the
/// counter-asset moves intact from the taker's source to the initializer's
/// destination, and the held asset moves intact from the holding account
/// to the taker's destination.
pub proof fn lemma_settlement_conserves_assets(v: SettleAccountsView, pda: Seq<u8>, amount: u64)
    requires
        settle_err(v, pda, amount) is None,
    ensures
        ({
            let w = settle_post(v, pda, amount);
            &&& w.taker_source.amount + w.initializer_dest.amount == v.taker_source.amount
                + v.initializer_dest.amount
            &&& w.taker_dest.amount + w.holding.amount == v.taker_dest.amount + v.holding.amount
        }),
{
}

} // verus!
