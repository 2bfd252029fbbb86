//! The instruction codec: the wire format of caller-submitted commands.
//!
//! A command travels as an opaque byte buffer. Byte 0 is a discriminant
//! tag; bytes 1..9 are a little-endian unsigned 64-bit amount; anything
//! past byte 9 is forward-compatible padding and is ignored.

use vstd::prelude::*;

use crate::error::EscrowError;

verus! {

/// A decoded command, transient to one call and never persisted.
#[derive(Clone, Copy, Debug, PartialEq, Eq, Structural)]
pub enum EscrowInstruction {
    /// Starts a swap: populates an escrow record and hands custody of the
    /// deposited asset to the program-derived custodian.
    ///
    /// `amount` is how much of the counter-asset the initializer expects
    /// to receive.
    InitEscrow { amount: u64 },
    /// Completes a swap: pays the initializer, releases the escrowed
    /// asset to the taker, and closes the record.
    ///
    /// `amount` is how much of the escrowed asset the taker expects to
    /// receive; it is a client-side safety assertion, not the price.
    Exchange { amount: u64 },
}

/// A buffer decodes successfully exactly when it carries a known tag and
/// a full 8-byte amount.
pub open spec fn decodes(input: Seq<u8>) -> bool {
    input.len() >= 9 && (input[0] == 0 || input[0] == 1)
}

/// The command a well-formed buffer denotes.
pub open spec fn decoded(input: Seq<u8>) -> EscrowInstruction
    recommends
        decodes(input),
{
    let amount = vstd::bytes::spec_u64_from_le_bytes(input.subrange(1, 9));
    if input[0] == 0 {
        EscrowInstruction::InitEscrow { amount }
    } else {
        EscrowInstruction::Exchange { amount }
    }
}

impl EscrowInstruction {
    /// Decodes a byte buffer into a command.
    ///
    /// Tag 0 selects `InitEscrow`, tag 1 selects `Exchange`; any other
    /// first byte, or fewer than 8 bytes after the tag, is rejected with
    /// `InvalidInstruction`. Trailing bytes are ignored.
    pub fn unpack(input: &[u8]) -> (r: Result<Self, EscrowError>)
        ensures
            decodes(input@) ==> r == Ok::<Self, EscrowError>(decoded(input@)),
            !decodes(input@) ==> r == Err::<Self, EscrowError>(EscrowError::InvalidInstruction),
    {
        if input.len() == 0 {
            return Err(EscrowError::InvalidInstruction);
        }
        let tag = *vstd::slice::slice_index_get(input, 0);
        let rest = vstd::slice::slice_subrange(input, 1, input.len());
        match tag {
            0 => {
                let amount = Self::unpack_amount(rest)?;
                proof {
                    assert(rest@.subrange(0, 8) =~= input@.subrange(1, 9));
                }
                Ok(EscrowInstruction::InitEscrow { amount })
            },
            1 => {
                let amount = Self::unpack_amount(rest)?;
                proof {
                    assert(rest@.subrange(0, 8) =~= input@.subrange(1, 9));
                }
                Ok(EscrowInstruction::Exchange { amount })
            },
            _ => Err(EscrowError::InvalidInstruction),
        }
    }

    /// Reads the fixed-width little-endian amount that follows the tag.
    fn unpack_amount(rest_input: &[u8]) -> (r: Result<u64, EscrowError>)
        ensures
            rest_input@.len() >= 8 ==> r == Ok::<u64, EscrowError>(
                vstd::bytes::spec_u64_from_le_bytes(rest_input@.subrange(0, 8)),
            ),
            rest_input@.len() < 8 ==> r == Err::<u64, EscrowError>(EscrowError::InvalidInstruction),
    {
        if rest_input.len() < 8 {
            return Err(EscrowError::InvalidInstruction);
        }
        let amount_bytes = vstd::slice::slice_subrange(rest_input, 0, 8);
        Ok(vstd::bytes::u64_from_le_bytes(amount_bytes))
    }
}

} // verus!
