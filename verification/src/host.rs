//! Host-provided capabilities: the storage-rent-exemption rule and the
//! derivation of the program's authority address from its fixed seed.

use vstd::prelude::*;

use crate::ledger::Address;

verus! {

/// The largest data length the host permits an account to have: ten
/// mebibytes.  The host's rent rule is only defined up to this size.
pub const MAX_ACCOUNT_DATA_LEN: usize = 10485760;

/// Whether a balance of `lamports` exempts a slot of `size` data bytes
/// from storage rent, under the host's fixed rent configuration.
pub uninterp spec fn rent_exempt(lamports: u64, size: usize) -> bool;

/// Relies on solana_program's `Rent::is_exempt` under the default rent
/// configuration: a function of the balance and the data size alone.  The
/// outside function panics past the host's maximum account data length,
/// so such sizes are excluded here and refused by the caller first.
#[verifier::external_body]
pub(crate) fn check_rent_exempt(lamports: u64, size: usize) -> (r: bool)
    requires
        size <= MAX_ACCOUNT_DATA_LEN,
    ensures
        r == rent_exempt(lamports, size),
{
    let rent = solana_program::rent::Rent::default();
    rent.is_exempt(lamports, size)
}

/// The program-derived authority for a program identity: the address that
/// the fixed escrow seed derives, with its bump byte, or `None` in the
/// statistically improbable event that no bump works.
pub uninterp spec fn pda_of(program_id: Seq<u8>) -> Option<(Seq<u8>, u8)>;

/// Relies on solana_program's `Pubkey::try_find_program_address` over the
/// one fixed seed `b"escrow"`: deterministic in the program identity alone.
#[verifier::external_body]
pub(crate) fn derive_escrow_authority(program_id: &Address) -> (r: Option<(Address, u8)>)
    ensures
        match (r, pda_of(program_id@)) {
            (Some(p), Some(q)) => p.0@ == q.0 && p.1 == q.1,
            (None, None) => true,
            _ => false,
        },
{
    let pk = solana_program::pubkey::Pubkey::new_from_array(program_id.bytes);
    match solana_program::pubkey::Pubkey::try_find_program_address(&[b"escrow"], &pk) {
        Some((addr, bump)) => Some((Address { bytes: addr.to_bytes() }, bump)),
        None => None,
    }
}

} // verus!
