//! The commands of the escrow program and their byte encoding.

use crate::codec::{le_u64, read_u64};
use crate::errors::{custom, EscrowError, Failure};
use vstd::prelude::*;

verus! {

/// Tag byte of `InitEscrow`.
pub const TAG_INIT_ESCROW: u8 = 0;

/// Tag byte of `Exchange`.
pub const TAG_EXCHANGE: u8 = 1;

/// A command sent to the escrow program.
#[derive(Clone, Copy, Debug, PartialEq, Eq, Structural)]
pub enum EscrowInstruction {
    /// Opens a swap: the initializer has funded a temporary token account and
    /// asks for `amount` of the other token in return.
    InitEscrow { amount: u64 },
    /// Takes a swap: the taker expects to receive `amount` out of custody.
    Exchange { amount: u64 },
}

impl EscrowInstruction {
    /// What `input` decodes to: a tag byte, then the amount as eight
    /// little-endian bytes. Bytes after the amount are not looked at.
    pub open spec fn decode(input: Seq<u8>) -> Result<EscrowInstruction, Failure> {
        if input.len() < 9 || input[0] > 1 {
            Err(custom(EscrowError::InvalidInstruction))
        } else {
            let amount = le_u64(input.subrange(1, 9)) as u64;
            if input[0] == 0 {
                Ok(EscrowInstruction::InitEscrow { amount })
            } else {
                Ok(EscrowInstruction::Exchange { amount })
            }
        }
    }

    /// Decodes the bytes of an instruction.
    pub fn unpack(input: &[u8]) -> (r: Result<EscrowInstruction, Failure>)
        ensures
            r == Self::decode(input@),
    {
        if input.len() < 9 {
            return Err(Failure::from(EscrowError::InvalidInstruction));
        }
        let tag: u8 = input[0];
        if tag != TAG_INIT_ESCROW && tag != TAG_EXCHANGE {
            return Err(Failure::from(EscrowError::InvalidInstruction));
        }
        let amount: u64 = read_u64(input, 1);
        if tag == TAG_INIT_ESCROW {
            Ok(EscrowInstruction::InitEscrow { amount })
        } else {
            Ok(EscrowInstruction::Exchange { amount })
        }
    }
}

} // verus!
