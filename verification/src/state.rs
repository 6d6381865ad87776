//! The escrow record store.
//!
//! A record lives in a fixed 105-byte storage slot: one tag byte (`0`
//! uninitialized, `1` open), the initializer's address, the holding
//! account's address, the initializer's destination address, and the
//! expected amount, little-endian.  A slot of any other shape does not
//! decode.  The record is a tagged value — either no offer at all, or one
//! fully populated offer — so a half-written record is unrepresentable.

use vstd::prelude::*;
use vstd::bytes::{
    lemma_auto_spec_u64_to_from_le_bytes, spec_u64_from_le_bytes, spec_u64_to_le_bytes,
    u64_from_le_bytes, u64_to_le_bytes,
};
use crate::error::EscrowError;
use crate::ledger::Address;

verus! {

/// Size in bytes of a record storage slot.
pub const RECORD_LEN: usize = 105;

/// The fields of one live offer.
pub struct OpenOfferView {
    pub initializer: Seq<u8>,
    pub holding: Seq<u8>,
    pub initializer_dest: Seq<u8>,
    pub expected_amount: u64,
}

/// What a record slot holds: nothing, or one live offer.
pub enum RecordView {
    Uninitialized,
    Open(OpenOfferView),
}

/// An escrow record as executable data.
#[derive(Clone, Copy, Debug)]
pub enum EscrowRecord {
    Uninitialized,
    Open {
        initializer: Address,
        holding: Address,
        initializer_dest: Address,
        expected_amount: u64,
    },
}

impl View for EscrowRecord {
    type V = RecordView;

    open spec fn view(&self) -> RecordView {
        match *self {
            EscrowRecord::Uninitialized => RecordView::Uninitialized,
            EscrowRecord::Open { initializer, holding, initializer_dest, expected_amount } =>
                RecordView::Open(
                    OpenOfferView {
                        initializer: initializer@,
                        holding: holding@,
                        initializer_dest: initializer_dest@,
                        expected_amount: expected_amount,
                    },
                ),
        }
    }
}

/// A record view whose addresses are real 32-byte addresses.
pub open spec fn record_wf(r: RecordView) -> bool {
    match r {
        RecordView::Uninitialized => true,
        RecordView::Open(o) => o.initializer.len() == 32 && o.holding.len() == 32
            && o.initializer_dest.len() == 32,
    }
}

/// The bytes of an empty record slot: all zero.
pub open spec fn spec_zeroed_record() -> Seq<u8> {
    Seq::new(RECORD_LEN as nat, |i: int| 0u8)
}

/// The byte layout of a record.
pub open spec fn spec_pack_record(r: RecordView) -> Seq<u8> {
    match r {
        RecordView::Uninitialized => spec_zeroed_record(),
        RecordView::Open(o) => seq![1u8] + o.initializer + o.holding + o.initializer_dest
            + spec_u64_to_le_bytes(o.expected_amount),
    }
}

/// What a storage slot decodes to: `None` unless it is exactly
/// [`RECORD_LEN`] bytes with a valid tag byte.
pub open spec fn parse_record(data: Seq<u8>) -> Option<RecordView> {
    if data.len() != RECORD_LEN {
        None
    } else if data[0] == 0u8 {
        Some(RecordView::Uninitialized)
    } else if data[0] == 1u8 {
        Some(
            RecordView::Open(
                OpenOfferView {
                    initializer: data.subrange(1, 33),
                    holding: data.subrange(33, 65),
                    initializer_dest: data.subrange(65, 97),
                    expected_amount: spec_u64_from_le_bytes(data.subrange(97, 105)),
                },
            ),
        )
    } else {
        None
    }
}

/// Law: packing a well-formed record and decoding the bytes gives the
/// record back, so the store never loses or distorts an offer.
pub proof fn lemma_record_round_trip(r: RecordView)
    requires
        record_wf(r),
    ensures
        parse_record(spec_pack_record(r)) == Some(r),
{
    lemma_auto_spec_u64_to_from_le_bytes();
    match r {
        RecordView::Uninitialized => {
            assert(spec_pack_record(r).len() == RECORD_LEN);
        },
        RecordView::Open(o) => {
            let s = spec_pack_record(r);
            assert(s.len() == RECORD_LEN);
            assert(s[0] == 1u8);
            assert(s.subrange(1, 33) =~= o.initializer);
            assert(s.subrange(33, 65) =~= o.holding);
            assert(s.subrange(65, 97) =~= o.initializer_dest);
            assert(s.subrange(97, 105) =~= spec_u64_to_le_bytes(o.expected_amount));
        },
    }
}

/// Copy the 32 bytes at `data[off..off + 32]` into an address.
fn read_address(data: &Vec<u8>, off: usize) -> (r: Address)
    requires
        off + 32 <= data@.len(),
    ensures
        r@ == data@.subrange(off as int, off + 32),
{
    let n = data.len();
    let mut bytes: [u8; 32] = [0u8; 32];
    let mut i: usize = 0;
    while i < 32
        invariant
            0 <= i <= 32,
            off + 32 <= n == data@.len(),
            forall|j: int| 0 <= j < i ==> bytes@[j] == data@[off + j],
        decreases 32 - i,
    {
        bytes[i] = data[off + i];
        i = i + 1;
    }
    assert(bytes@ =~= data@.subrange(off as int, off + 32));
    Address { bytes }
}

/// Append an address's 32 bytes to `v`.
fn push_address(v: &mut Vec<u8>, a: &Address)
    ensures
        final(v)@ == old(v)@ + a@,
{
    let mut i: usize = 0;
    while i < 32
        invariant
            0 <= i <= 32,
            v@ =~= old(v)@ + a@.subrange(0, i as int),
        decreases 32 - i,
    {
        v.push(a.bytes[i]);
        assert(v@ =~= old(v)@ + a@.subrange(0, i + 1));
        i = i + 1;
    }
    assert(v@ =~= old(v)@ + a@);
}

/// Decode a record storage slot.
///
/// Returns exactly what [`parse_record`] gives, and fails with
/// `InvalidAccountData` exactly on the slots that decode to nothing.
pub fn unpack_record(data: &Vec<u8>) -> (r: Result<EscrowRecord, EscrowError>)
    ensures
        match r {
            Ok(rec) => parse_record(data@) == Some(rec@),
            Err(e) => parse_record(data@) is None && e == EscrowError::InvalidAccountData,
        },
{
    if data.len() != RECORD_LEN {
        return Err(EscrowError::InvalidAccountData);
    }
    let tag = data[0];
    if tag == 0 {
        Ok(EscrowRecord::Uninitialized)
    } else if tag == 1 {
        let initializer = read_address(data, 1);
        let holding = read_address(data, 33);
        let initializer_dest = read_address(data, 65);
        let mut amount_bytes: [u8; 8] = [0u8; 8];
        let mut i: usize = 0;
        while i < 8
            invariant
                0 <= i <= 8,
                data@.len() == RECORD_LEN,
                forall|j: int| 0 <= j < i ==> amount_bytes@[j] == data@[97 + j],
            decreases 8 - i,
        {
            amount_bytes[i] = data[97 + i];
            i = i + 1;
        }
        assert(amount_bytes@ =~= data@.subrange(97, 105));
        let expected_amount = u64_from_le_bytes(amount_bytes.as_slice());
        Ok(EscrowRecord::Open { initializer, holding, initializer_dest, expected_amount })
    } else {
        Err(EscrowError::InvalidAccountData)
    }
}

/// Encode a record into the bytes of a storage slot.
///
/// The result always decodes back to the same record.
pub fn pack_record(rec: &EscrowRecord) -> (r: Vec<u8>)
    ensures
        r@ == spec_pack_record(rec@),
        parse_record(r@) == Some(rec@),
{
    let mut v: Vec<u8> = Vec::new();
    match rec {
        EscrowRecord::Uninitialized => {
            let mut i: usize = 0;
            while i < RECORD_LEN
                invariant
                    0 <= i <= RECORD_LEN,
                    v@.len() == i,
                    forall|j: int| 0 <= j < i ==> v@[j] == 0u8,
                decreases RECORD_LEN - i,
            {
                v.push(0u8);
                i = i + 1;
            }
            assert(v@ =~= spec_zeroed_record());
        },
        EscrowRecord::Open { initializer, holding, initializer_dest, expected_amount } => {
            v.push(1u8);
            push_address(&mut v, initializer);
            push_address(&mut v, holding);
            push_address(&mut v, initializer_dest);
            let mut amount_bytes = u64_to_le_bytes(*expected_amount);
            v.append(&mut amount_bytes);
            assert(v@ =~= spec_pack_record(rec@));
        },
    }
    proof {
        lemma_record_round_trip(rec@);
    }
    v
}

} // verus!
