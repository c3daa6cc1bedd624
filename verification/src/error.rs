//! The failures that the library reports to its callers.

use vstd::prelude::*;

verus! {

/// Every failure is handed back as a value; nothing here is fatal to the process.
#[derive(Clone, Copy, Debug, PartialEq, Eq, Structural)]
pub enum SwitchboardError {
    /// Neither the current nor the last confirmed round reached the quorum.
    InvalidAggregatorRound,
    TooManyAggregatorJobs,
    AggregatorCurrentRoundClosed,
    AggregatorInvalidSaveResult,
    InvalidStrDecimalConversion,
    AggregatorAccountNotFound,
    PermissionAccountNotFound,
    LeaseAccountDeriveFailure,
    PermissionAccountDeriveFailure,
    EscrowAccountNotFound,
    LeaseAccountNotFound,
    /// A decimal lies outside what the decimal arithmetic can represent.
    DecimalConversionError,
    AggregatorInvalidBatchSizeError,
    AggregatorJobChecksumMismatch,
    /// A decimal's value does not fit the requested integer type.
    IntegerOverflowError,
    /// The leading tag of an account's bytes is not the expected one.
    AccountDiscriminatorMismatch,
    /// The randomness account holds no result yet.
    VrfEmptyError,
}

impl SwitchboardError {
    /// The human-readable text that belongs to each failure.
    pub open spec fn message_spec(self) -> Seq<char> {
        match self {
            SwitchboardError::InvalidAggregatorRound =>
                "Aggregator is not currently populated with a valid round."@,
            SwitchboardError::TooManyAggregatorJobs => "Aggregator cannot fit any more jobs."@,
            SwitchboardError::AggregatorCurrentRoundClosed =>
                "Aggregator's current round is closed. No results are being accepted."@,
            SwitchboardError::AggregatorInvalidSaveResult =>
                "Aggregator received an invalid save result instruction."@,
            SwitchboardError::InvalidStrDecimalConversion =>
                "Failed to convert string to decimal format."@,
            SwitchboardError::AggregatorAccountNotFound =>
                "Loader account is missing a required signature."@,
            SwitchboardError::PermissionAccountNotFound =>
                "Permission accont missing from provided account list."@,
            SwitchboardError::LeaseAccountDeriveFailure => "Failed to derive a lease account."@,
            SwitchboardError::PermissionAccountDeriveFailure =>
                "Failed to derive a permission account."@,
            SwitchboardError::EscrowAccountNotFound =>
                "Escrow accont missing from provided account list."@,
            SwitchboardError::LeaseAccountNotFound =>
                "Lease accont missing from provided account list."@,
            SwitchboardError::DecimalConversionError => "Decimal conversion method failed."@,
            SwitchboardError::AggregatorInvalidBatchSizeError => "Aggregator invalid batch size."@,
            SwitchboardError::AggregatorJobChecksumMismatch =>
                "Oracle provided an incorrect aggregator job checksum."@,
            SwitchboardError::IntegerOverflowError => "An integer overflow occurred."@,
            SwitchboardError::AccountDiscriminatorMismatch =>
                "Account discriminator did not match."@,
            SwitchboardError::VrfEmptyError => "Vrf account holds no result."@,
        }
    }

    /// Returns the text of `message_spec` for this failure.
    pub fn message(&self) -> (text: &'static str)
        ensures
            text@ == self.message_spec(),
    {
        match self {
            SwitchboardError::InvalidAggregatorRound =>
                "Aggregator is not currently populated with a valid round.",
            SwitchboardError::TooManyAggregatorJobs => "Aggregator cannot fit any more jobs.",
            SwitchboardError::AggregatorCurrentRoundClosed =>
                "Aggregator's current round is closed. No results are being accepted.",
            SwitchboardError::AggregatorInvalidSaveResult =>
                "Aggregator received an invalid save result instruction.",
            SwitchboardError::InvalidStrDecimalConversion =>
                "Failed to convert string to decimal format.",
            SwitchboardError::AggregatorAccountNotFound =>
                "Loader account is missing a required signature.",
            SwitchboardError::PermissionAccountNotFound =>
                "Permission accont missing from provided account list.",
            SwitchboardError::LeaseAccountDeriveFailure => "Failed to derive a lease account.",
            SwitchboardError::PermissionAccountDeriveFailure =>
                "Failed to derive a permission account.",
            SwitchboardError::EscrowAccountNotFound =>
                "Escrow accont missing from provided account list.",
            SwitchboardError::LeaseAccountNotFound =>
                "Lease accont missing from provided account list.",
            SwitchboardError::DecimalConversionError => "Decimal conversion method failed.",
            SwitchboardError::AggregatorInvalidBatchSizeError => "Aggregator invalid batch size.",
            SwitchboardError::AggregatorJobChecksumMismatch =>
                "Oracle provided an incorrect aggregator job checksum.",
            SwitchboardError::IntegerOverflowError => "An integer overflow occurred.",
            SwitchboardError::AccountDiscriminatorMismatch =>
                "Account discriminator did not match.",
            SwitchboardError::VrfEmptyError => "Vrf account holds no result.",
        }
    }
}

} // verus!
