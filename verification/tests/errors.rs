use escrow::errors::{EscrowError, Failure};

#[test]
fn codes_count_from_zero_in_order() {
    assert_eq!(EscrowError::InvalidInstruction.code(), 0);
    assert_eq!(EscrowError::NotRentExempt.code(), 1);
    assert_eq!(EscrowError::ExpectedAmountMismatch.code(), 2);
    assert_eq!(EscrowError::AmountOverflow.code(), 3);
}

#[test]
fn escrow_errors_become_custom_failures() {
    assert_eq!(Failure::from(EscrowError::InvalidInstruction), Failure::Custom(0));
    assert_eq!(Failure::from(EscrowError::NotRentExempt), Failure::Custom(1));
    assert_eq!(Failure::from(EscrowError::ExpectedAmountMismatch), Failure::Custom(2));
    assert_eq!(Failure::from(EscrowError::AmountOverflow), Failure::Custom(3));
    let converted: Failure = EscrowError::AmountOverflow.into();
    assert_eq!(converted, Failure::Custom(3));
}

#[test]
fn messages_describe_the_errors() {
    assert_eq!(EscrowError::InvalidInstruction.message(), "Invalid Instruction");
    assert_eq!(EscrowError::NotRentExempt.message(), "Not Rent Exempt");
    assert_eq!(EscrowError::ExpectedAmountMismatch.message(), "Expected Amount Mismatch");
    assert_eq!(EscrowError::AmountOverflow.message(), "Amount Overflow");
}
