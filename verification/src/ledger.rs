//! Plain models of the ledger values the escrow program reads and writes.
//!
//! Every account reference that an invocation hands in is modelled by one of
//! the structs here, holding exactly the fields the escrow logic looks at: a
//! 32-byte address, a native balance, a signer flag, an asset balance under a
//! custody authority, or a raw data slot.

use vstd::prelude::*;

verus! {

/// A 32-byte ledger address.
#[derive(Clone, Copy, Debug)]
pub struct Address {
    pub bytes: [u8; 32],
}

impl View for Address {
    type V = Seq<u8>;

    open spec fn view(&self) -> Seq<u8> {
        self.bytes@
    }
}

impl Address {
    /// Wrap raw address bytes.
    pub fn new(bytes: [u8; 32]) -> (r: Address)
        ensures
            r@ == bytes@,
    {
        Address { bytes }
    }
}

/// Byte-for-byte equality of two addresses.
pub fn address_eq(a: &Address, b: &Address) -> (r: bool)
    ensures
        r == (a@ == b@),
{
    let mut i: usize = 0;
    while i < 32
        invariant
            0 <= i <= 32,
            forall|j: int| 0 <= j < i ==> a.bytes@[j] == b.bytes@[j],
        decreases 32 - i,
    {
        if a.bytes[i] != b.bytes[i] {
            assert(a@[i as int] != b@[i as int]);
            return false;
        }
        i = i + 1;
    }
    assert(a@ =~= b@);
    true
}

/// A principal: an address that may have co-signed the invocation, with its
/// native balance.
pub struct PrincipalView {
    pub key: Seq<u8>,
    pub is_signer: bool,
    pub lamports: u64,
}

/// See [`PrincipalView`].
#[derive(Clone, Copy, Debug)]
pub struct Principal {
    pub key: Address,
    pub is_signer: bool,
    pub lamports: u64,
}

impl View for Principal {
    type V = PrincipalView;

    open spec fn view(&self) -> PrincipalView {
        PrincipalView { key: self.key@, is_signer: self.is_signer, lamports: self.lamports }
    }
}

/// An asset account of the external custody service: an asset balance under
/// one authority, plus the native balance that funds the account's storage.
/// `initialized` is false once the account has been closed (or never opened).
pub struct AssetAccountView {
    pub key: Seq<u8>,
    pub authority: Seq<u8>,
    pub amount: u64,
    pub lamports: u64,
    pub initialized: bool,
}

/// See [`AssetAccountView`].
#[derive(Clone, Copy, Debug)]
pub struct AssetAccount {
    pub key: Address,
    pub authority: Address,
    pub amount: u64,
    pub lamports: u64,
    pub initialized: bool,
}

impl View for AssetAccount {
    type V = AssetAccountView;

    open spec fn view(&self) -> AssetAccountView {
        AssetAccountView {
            key: self.key@,
            authority: self.authority@,
            amount: self.amount,
            lamports: self.lamports,
            initialized: self.initialized,
        }
    }
}

/// A raw ledger account: its address, the program that owns it, and its data
/// bytes as they sit on the ledger.
pub struct RawAccountView {
    pub key: Seq<u8>,
    pub owner_program: Seq<u8>,
    pub data: Seq<u8>,
}

/// See [`RawAccountView`].
#[derive(Debug)]
pub struct RawAccount {
    pub key: Address,
    pub owner_program: Address,
    pub data: Vec<u8>,
}

impl View for RawAccount {
    type V = RawAccountView;

    open spec fn view(&self) -> RawAccountView {
        RawAccountView { key: self.key@, owner_program: self.owner_program@, data: self.data@ }
    }
}

/// The storage slot that persists one escrow record: its rent-funding
/// balance and its data bytes.
pub struct RecordAccountView {
    pub lamports: u64,
    pub data: Seq<u8>,
}

/// See [`RecordAccountView`].
#[derive(Debug)]
pub struct RecordAccount {
    pub lamports: u64,
    pub data: Vec<u8>,
}

impl View for RecordAccount {
    type V = RecordAccountView;

    open spec fn view(&self) -> RecordAccountView {
        RecordAccountView { lamports: self.lamports, data: self.data@ }
    }
}

} // verus!
