//! The instruction decoder.
//!
//! An instruction is at least nine bytes: byte zero selects the opcode
//! (`0` opens an escrow, `1` settles one) and the next eight bytes are a
//! little-endian unsigned 64-bit amount.  Anything else is refused with
//! [`EscrowError::InvalidInstruction`].  Bytes beyond the first nine are
//! ignored.

use vstd::prelude::*;
use vstd::bytes::{spec_u64_from_le_bytes, u64_from_le_bytes};
use vstd::slice::{slice_index_get, slice_subrange};

use crate::error::EscrowError;

verus! {

/// The two commands of the escrow program, each carrying one amount.
#[derive(Clone, Copy, Debug, PartialEq, Eq, Structural)]
pub enum EscrowInstruction {
    /// Open an escrow: record the offer and hand the holding account to the
    /// program-derived authority.  `amount` is the quantity of the
    /// counter-asset the initializer demands in return.
    InitEscrow { amount: u64 },
    /// Settle an escrow: deliver the counter-asset to the initializer and
    /// the held asset to the taker, then destroy the record.  `amount` is
    /// the holding balance the taker asserts it is buying.
    Exchange { amount: u64 },
}

/// The amount encoded little-endian in the first eight bytes of `s`, if
/// `s` is long enough.
pub open spec fn parse_amount(s: Seq<u8>) -> Option<u64> {
    if s.len() >= 8 {
        Some(spec_u64_from_le_bytes(s.subrange(0, 8)))
    } else {
        None
    }
}

/// What a byte sequence decodes to: `None` exactly when it is shorter than
/// nine bytes or its opcode is neither `0` nor `1`.
pub open spec fn parse_instruction(s: Seq<u8>) -> Option<EscrowInstruction> {
    if s.len() < 9 {
        None
    } else if s[0] == 0u8 {
        Some(EscrowInstruction::InitEscrow { amount: spec_u64_from_le_bytes(s.subrange(1, 9)) })
    } else if s[0] == 1u8 {
        Some(EscrowInstruction::Exchange { amount: spec_u64_from_le_bytes(s.subrange(1, 9)) })
    } else {
        None
    }
}

impl EscrowInstruction {
    /// Decode an instruction from raw bytes.
    ///
    /// Returns the command that `parse_instruction` gives, and fails with
    /// `InvalidInstruction` exactly on the byte sequences that decode to
    /// nothing.
    pub fn unpack(input: &[u8]) -> (r: Result<EscrowInstruction, EscrowError>)
        ensures
            match r {
                Ok(inst) => parse_instruction(input@) == Some(inst),
                Err(e) => parse_instruction(input@) is None && e == EscrowError::InvalidInstruction,
            },
    {
        if input.len() < 1 {
            return Err(EscrowError::InvalidInstruction);
        }
        let tag = *slice_index_get(input, 0);
        let rest = slice_subrange(input, 1, input.len());
        if tag == 0 {
            let amount = Self::unpack_amount(rest)?;
            assert(input@.subrange(1, 9) =~= rest@.subrange(0, 8));
            Ok(EscrowInstruction::InitEscrow { amount })
        } else if tag == 1 {
            let amount = Self::unpack_amount(rest)?;
            assert(input@.subrange(1, 9) =~= rest@.subrange(0, 8));
            Ok(EscrowInstruction::Exchange { amount })
        } else {
            Err(EscrowError::InvalidInstruction)
        }
    }

    /// Decode a little-endian 64-bit amount from the first eight bytes of
    /// `input`; fails with `InvalidInstruction` when fewer than eight bytes
    /// are given.
    pub fn unpack_amount(input: &[u8]) -> (r: Result<u64, EscrowError>)
        ensures
            match r {
                Ok(a) => parse_amount(input@) == Some(a),
                Err(e) => parse_amount(input@) is None && e == EscrowError::InvalidInstruction,
            },
    {
        if input.len() < 8 {
            return Err(EscrowError::InvalidInstruction);
        }
        let first = slice_subrange(input, 0, 8);
        Ok(u64_from_le_bytes(first))
    }
}

} // verus!
