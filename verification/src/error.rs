//! Errors of the program.
use vstd::prelude::*;

verus! {

/// Errors of the fundraising rules, returned to the runtime as custom errors.
#[derive(Clone, Copy, Debug, PartialEq, Eq, Structural)]
pub enum FundraiserError {
    /// The fundraiser has not reached its target.
    TargetNotMet,
    /// The fundraiser has reached its target.
    TargetMet,
    /// The contribution is above the largest allowed contribution.
    ContributionTooBig,
    /// The contribution is below the smallest allowed contribution.
    ContributionTooSmall,
    /// The contributor has reached the largest allowed total.
    MaximumContributionsReached,
    /// The fundraiser is still running.
    FundraiserNotEnded,
    /// The fundraiser has ended.
    FundraiserEnded,
    /// The amount is invalid.
    InvalidAmount,
}

/// The custom error code of each fundraiser error: its position in the enum.
pub open spec fn spec_error_code(e: FundraiserError) -> u32 {
    match e {
        FundraiserError::TargetNotMet => 0,
        FundraiserError::TargetMet => 1,
        FundraiserError::ContributionTooBig => 2,
        FundraiserError::ContributionTooSmall => 3,
        FundraiserError::MaximumContributionsReached => 4,
        FundraiserError::FundraiserNotEnded => 5,
        FundraiserError::FundraiserEnded => 6,
        FundraiserError::InvalidAmount => 7,
    }
}

impl FundraiserError {
    /// The custom error code that the runtime reports for this error.
    pub fn code(&self) -> (r: u32)
        ensures
            r == spec_error_code(*self),
    {
        match self {
            FundraiserError::TargetNotMet => 0,
            FundraiserError::TargetMet => 1,
            FundraiserError::ContributionTooBig => 2,
            FundraiserError::ContributionTooSmall => 3,
            FundraiserError::MaximumContributionsReached => 4,
            FundraiserError::FundraiserNotEnded => 5,
            FundraiserError::FundraiserEnded => 6,
            FundraiserError::InvalidAmount => 7,
        }
    }
}

/// Why an instruction failed.
#[derive(Clone, Copy, Debug, PartialEq, Eq, Structural)]
pub enum ProcessError {
    /// The instruction data is malformed.
    InvalidInstructionData,
    /// An account is missing or its data is malformed.
    InvalidAccountData,
    /// An account that must sign did not.
    MissingRequiredSignature,
    /// The account to create already holds data.
    AccountAlreadyInitialized,
    /// The account has not been initialized.
    UninitializedAccount,
    /// A fundraising rule refused the instruction.
    Fundraiser(FundraiserError),
    /// A call into the runtime failed; the value is the runtime's error code.
    Runtime(u64),
}

} // verus!
