//! The reasons for which an operation of the facilitator is refused.

use vstd::prelude::*;

verus! {

/// Why an operation was refused. A refused operation leaves every piece of
/// state it was given exactly as it found it.
#[derive(Clone, Copy, Debug, PartialEq, Eq, Structural)]
pub enum ErrorCode {
    /// The protocol fee rate is above five percent.
    FeeTooHigh,
    /// The tithe rate is above twenty percent.
    TitheTooHigh,
    /// The amount to settle is zero.
    InvalidAmount,
    /// A product, difference or counter left the range of `u64`.
    MathOverflow,
    /// The payment identifier already has a settled receipt.
    AlreadySettled,
    /// The payment identifier is longer than thirty-two bytes.
    PaymentIdTooLong,
    /// The caller is not the authority stored in the configuration.
    Unauthorized,
    /// The deployment already has a configuration.
    AlreadyInitialized,
    /// The external ledger rejected the disbursements.
    TransferFailed,
    /// The clock of the ledger could not be read.
    ClockUnavailable,
}

/// The sentence that describes an error.
pub open spec fn message_of(code: ErrorCode) -> Seq<char> {
    match code {
        ErrorCode::FeeTooHigh => "Fee cannot exceed 5%"@,
        ErrorCode::TitheTooHigh => "Tithe cannot exceed 20%"@,
        ErrorCode::InvalidAmount => "Invalid payment amount"@,
        ErrorCode::MathOverflow => "Math overflow"@,
        ErrorCode::AlreadySettled => "Payment already settled"@,
        ErrorCode::PaymentIdTooLong => "Payment ID too long"@,
        ErrorCode::Unauthorized => "Caller is not the authority"@,
        ErrorCode::AlreadyInitialized => "Facilitator already initialized"@,
        ErrorCode::TransferFailed => "Transfer rejected by the ledger"@,
        ErrorCode::ClockUnavailable => "Ledger clock unavailable"@,
    }
}

impl ErrorCode {
    /// The sentence that describes the error.
    pub fn message(&self) -> (text: &'static str)
        ensures
            text@ == message_of(*self),
    {
        match self {
            ErrorCode::FeeTooHigh => "Fee cannot exceed 5%",
            ErrorCode::TitheTooHigh => "Tithe cannot exceed 20%",
            ErrorCode::InvalidAmount => "Invalid payment amount",
            ErrorCode::MathOverflow => "Math overflow",
            ErrorCode::AlreadySettled => "Payment already settled",
            ErrorCode::PaymentIdTooLong => "Payment ID too long",
            ErrorCode::Unauthorized => "Caller is not the authority",
            ErrorCode::AlreadyInitialized => "Facilitator already initialized",
            ErrorCode::TransferFailed => "Transfer rejected by the ledger",
            ErrorCode::ClockUnavailable => "Ledger clock unavailable",
        }
    }
}

} // verus!
