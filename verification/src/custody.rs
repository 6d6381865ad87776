//! The external asset-custody service, as the coordinator relies on it.
//!
//! The service's account bytes are decoded by the service's own code,
//! behind one trusted wrapper.  Its three operations — transfer, change of
//! authority, close — act on [`AssetAccount`] values; each either fully
//! applies its effect or fails with one error and changes nothing, which is
//! exactly the all-or-nothing behaviour the coordinator builds on.

use vstd::prelude::*;

use crate::error::EscrowError;
use crate::ledger::{address_eq, Address, AssetAccount, AssetAccountView, Principal, PrincipalView};

use spl_token::solana_program::program_pack::Pack;

verus! {

/// What the custody service's account decoder yields on given bytes: the
/// account's authority and its asset balance, or nothing.
pub uninterp spec fn token_account_of(data: Seq<u8>) -> Option<(Seq<u8>, u64)>;

/// Relies on spl_token's `Account::unpack`: it decodes the custody
/// service's fixed 165-byte account layout, a function of the bytes alone,
/// failing on any other length and on an uninitialized account.
#[allow(deprecated)]
#[verifier::external_body]
pub(crate) fn parse_token_account(data: &Vec<u8>) -> (r: Option<(Address, u64)>)
    ensures
        match (r, token_account_of(data@)) {
            (Some(p), Some(q)) => p.0@ == q.0 && p.1 == q.1,
            (None, None) => true,
            _ => false,
        },
        data@.len() != 165 ==> r is None,
{
    match spl_token::state::Account::unpack(data.as_slice()) {
        Ok(acc) => Some((Address { bytes: acc.owner.to_bytes() }, acc.amount)),
        Err(_) => None,
    }
}

/// Why a transfer of `amount` from `source` to `dest` under `authority`
/// is refused, or `None` when it goes through.
pub open spec fn transfer_err(
    source: AssetAccountView,
    dest: AssetAccountView,
    authority: Seq<u8>,
    amount: u64,
) -> Option<EscrowError> {
    if !source.initialized || !dest.initialized {
        Some(EscrowError::UninitializedAccount)
    } else if source.authority != authority {
        Some(EscrowError::AuthorityMismatch)
    } else if source.amount < amount {
        Some(EscrowError::InsufficientFunds)
    } else if dest.amount + amount > u64::MAX {
        Some(EscrowError::Overflow)
    } else {
        None
    }
}

/// The source account after a transfer of `amount` out of it.
pub open spec fn transfer_post_source(source: AssetAccountView, amount: u64) -> AssetAccountView {
    AssetAccountView { amount: (source.amount - amount) as u64, ..source }
}

/// The destination account after a transfer of `amount` into it.
pub open spec fn transfer_post_dest(dest: AssetAccountView, amount: u64) -> AssetAccountView {
    AssetAccountView { amount: (dest.amount + amount) as u64, ..dest }
}

/// Move `amount` of the asset from `source` to `dest`, authorized by
/// `authority`.  Either both balances change by exactly `amount`, or
/// nothing changes and the one refusing error comes back.
pub fn custody_transfer(
    source: &mut AssetAccount,
    dest: &mut AssetAccount,
    authority: &Address,
    amount: u64,
) -> (r: Result<(), EscrowError>)
    ensures
        match r {
            Ok(()) => transfer_err(old(source)@, old(dest)@, authority@, amount) is None
                && final(source)@ == transfer_post_source(old(source)@, amount)
                && final(dest)@ == transfer_post_dest(old(dest)@, amount),
            Err(e) => transfer_err(old(source)@, old(dest)@, authority@, amount) == Some(e)
                && final(source)@ == old(source)@ && final(dest)@ == old(dest)@,
        },
{
    if !source.initialized || !dest.initialized {
        return Err(EscrowError::UninitializedAccount);
    }
    if !address_eq(&source.authority, authority) {
        return Err(EscrowError::AuthorityMismatch);
    }
    if source.amount < amount {
        return Err(EscrowError::InsufficientFunds);
    }
    if amount > u64::MAX - dest.amount {
        return Err(EscrowError::Overflow);
    }
    source.amount = source.amount - amount;
    dest.amount = dest.amount + amount;
    Ok(())
}

/// Why handing `acct` to a new authority on behalf of `current` is
/// refused, or `None` when it goes through.
pub open spec fn change_authority_err(
    acct: AssetAccountView,
    current: PrincipalView,
) -> Option<EscrowError> {
    if !acct.initialized {
        Some(EscrowError::UninitializedAccount)
    } else if acct.authority != current.key {
        Some(EscrowError::AuthorityMismatch)
    } else if !current.is_signer {
        Some(EscrowError::MissingSigner)
    } else {
        None
    }
}

/// Hand control of `acct` from `current` — who must be its authority and
/// must have signed — to `new_authority`.
pub fn custody_change_authority(
    acct: &mut AssetAccount,
    new_authority: &Address,
    current: &Principal,
) -> (r: Result<(), EscrowError>)
    ensures
        match r {
            Ok(()) => change_authority_err(old(acct)@, current@) is None
                && final(acct)@ == (AssetAccountView { authority: new_authority@, ..old(acct)@ }),
            Err(e) => change_authority_err(old(acct)@, current@) == Some(e)
                && final(acct)@ == old(acct)@,
        },
{
    if !acct.initialized {
        return Err(EscrowError::UninitializedAccount);
    }
    if !address_eq(&acct.authority, &current.key) {
        return Err(EscrowError::AuthorityMismatch);
    }
    if !current.is_signer {
        return Err(EscrowError::MissingSigner);
    }
    acct.authority = *new_authority;
    Ok(())
}

/// Why closing `acct` under `authority` with rent going to `recipient` is
/// refused, or `None` when it goes through.
pub open spec fn close_err(
    acct: AssetAccountView,
    authority: Seq<u8>,
    recipient: PrincipalView,
) -> Option<EscrowError> {
    if !acct.initialized {
        Some(EscrowError::UninitializedAccount)
    } else if acct.authority != authority {
        Some(EscrowError::AuthorityMismatch)
    } else if acct.amount != 0 {
        Some(EscrowError::NonZeroBalance)
    } else if recipient.lamports + acct.lamports > u64::MAX {
        Some(EscrowError::Overflow)
    } else {
        None
    }
}

/// A closed asset account: emptied, defunded, and no longer initialized.
pub open spec fn closed_asset(acct: AssetAccountView) -> AssetAccountView {
    AssetAccountView { amount: 0u64, lamports: 0u64, initialized: false, ..acct }
}

/// Close the emptied `acct`, reclaiming its storage rent into
/// `recipient`'s balance, authorized by `authority`.
pub fn custody_close(
    acct: &mut AssetAccount,
    recipient: &mut Principal,
    authority: &Address,
) -> (r: Result<(), EscrowError>)
    ensures
        match r {
            Ok(()) => close_err(old(acct)@, authority@, old(recipient)@) is None
                && final(acct)@ == closed_asset(old(acct)@)
                && final(recipient)@ == (PrincipalView {
                    lamports: (old(recipient)@.lamports + old(acct)@.lamports) as u64,
                    ..old(recipient)@
                }),
            Err(e) => close_err(old(acct)@, authority@, old(recipient)@) == Some(e)
                && final(acct)@ == old(acct)@ && final(recipient)@ == old(recipient)@,
        },
{
    if !acct.initialized {
        return Err(EscrowError::UninitializedAccount);
    }
    if !address_eq(&acct.authority, authority) {
        return Err(EscrowError::AuthorityMismatch);
    }
    if acct.amount != 0 {
        return Err(EscrowError::NonZeroBalance);
    }
    if acct.lamports > u64::MAX - recipient.lamports {
        return Err(EscrowError::Overflow);
    }
    recipient.lamports = recipient.lamports + acct.lamports;
    acct.lamports = 0;
    acct.amount = 0;
    acct.initialized = false;
    Ok(())
}

} // verus!
