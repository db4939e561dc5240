//! The errors with which an instruction is rejected.

use vstd::prelude::*;
use vstd::std_specs::convert::FromSpecImpl;

verus! {

/// Rejections that are specific to the escrow program. Each is reported to the
/// ledger as a custom code, numbered in the order of declaration from zero.
#[derive(Clone, Copy, Debug, PartialEq, Eq, Structural)]
pub enum EscrowError {
    /// The instruction bytes name no known command.
    InvalidInstruction,
    /// The record account holds too small a deposit to be kept by the ledger.
    NotRentExempt,
    /// The amount the taker expects is not the amount held in custody.
    ExpectedAmountMismatch,
    /// Returning the record's deposit would overflow the initializer's balance.
    AmountOverflow,
}

impl EscrowError {
    /// The custom code of this error.
    pub open spec fn spec_code(self) -> u32 {
        match self {
            EscrowError::InvalidInstruction => 0,
            EscrowError::NotRentExempt => 1,
            EscrowError::ExpectedAmountMismatch => 2,
            EscrowError::AmountOverflow => 3,
        }
    }

    /// The custom code of this error.
    #[verifier::when_used_as_spec(spec_code)]
    pub fn code(self) -> (c: u32)
        ensures
            c == self.spec_code(),
    {
        match self {
            EscrowError::InvalidInstruction => 0,
            EscrowError::NotRentExempt => 1,
            EscrowError::ExpectedAmountMismatch => 2,
            EscrowError::AmountOverflow => 3,
        }
    }

    /// A short description of the error.
    pub fn message(self) -> (text: &'static str)
        ensures
            text@ == self.spec_message(),
    {
        match self {
            EscrowError::InvalidInstruction => "Invalid Instruction",
            EscrowError::NotRentExempt => "Not Rent Exempt",
            EscrowError::ExpectedAmountMismatch => "Expected Amount Mismatch",
            EscrowError::AmountOverflow => "Amount Overflow",
        }
    }

    /// The description that `message` returns.
    pub open spec fn spec_message(self) -> Seq<char> {
        match self {
            EscrowError::InvalidInstruction => "Invalid Instruction"@,
            EscrowError::NotRentExempt => "Not Rent Exempt"@,
            EscrowError::ExpectedAmountMismatch => "Expected Amount Mismatch"@,
            EscrowError::AmountOverflow => "Amount Overflow"@,
        }
    }
}

/// Why the ledger is told that an instruction failed.
#[derive(Clone, Copy, Debug, PartialEq, Eq, Structural)]
pub enum Failure {
    /// A program-specific error, by its code.
    Custom(u32),
    /// An argument of the instruction was invalid.
    InvalidArgument,
    /// The contents of an account's data were invalid.
    InvalidAccountData,
    /// An account did not belong to the expected program.
    IncorrectProgramId,
    /// A signature was required but not found.
    MissingRequiredSignature,
    /// The record to be initialized is already initialized.
    AccountAlreadyInitialized,
    /// An account that must be initialized is not.
    UninitializedAccount,
    /// The instruction came with too few accounts.
    NotEnoughAccountKeys,
    /// The seeds derive no valid address.
    InvalidSeeds,
}

impl From<EscrowError> for Failure {
    fn from(e: EscrowError) -> (f: Failure) {
        Failure::Custom(e.code())
    }
}

impl FromSpecImpl<EscrowError> for Failure {
    open spec fn obeys_from_spec() -> bool {
        true
    }

    open spec fn from_spec(e: EscrowError) -> Failure {
        Failure::Custom(e.spec_code())
    }
}

/// The failure that reports `e`.
pub open spec fn custom(e: EscrowError) -> Failure {
    Failure::Custom(e.spec_code())
}

/// No two escrow errors share a code.
pub proof fn lemma_codes_distinct(a: EscrowError, b: EscrowError)
    requires
        a.spec_code() == b.spec_code(),
    ensures
        a == b,
{
}

} // verus!
