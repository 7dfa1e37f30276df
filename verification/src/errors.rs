//! The error taxonomy of the vesting ledger.

use vstd::prelude::*;

verus! {

/// Why an operation of the vesting ledger was refused.
///
/// Every operation either completes or returns one of these; none is
/// retried internally and no operation leaves a record half-changed.
#[derive(Clone, Copy, Debug, PartialEq, Eq, Structural)]
pub enum ErrorCode {
    /// A vesting account already exists under the requested company name.
    DuplicatePlan,
    /// The company name is empty or longer than the bound allows.
    InvalidName,
    /// The caller is not the owner of the vesting account.
    Unauthorized,
    /// The grant's total amount is zero.
    InvalidAmount,
    /// An employee account already exists for this beneficiary under
    /// this vesting account.
    DuplicateGrant,
    /// The current time is before the grant's cliff time.
    ClaimNotAvailableYet,
    /// The grant's schedule has no positive vesting duration.
    InvalidVestingPeriod,
    /// The vesting product does not fit the 64-bit width it is computed in.
    CalculationOverflow,
    /// Nothing has newly vested beyond what was already withdrawn.
    NothingToClaim,
}

impl ErrorCode {
    /// A short human-readable description of the error.
    pub fn message(&self) -> (r: &'static str)
        ensures
            *self is DuplicatePlan ==> r@ == "Duplicate vesting account"@,
            *self is InvalidName ==> r@ == "Invalid company name"@,
            *self is Unauthorized ==> r@ == "Unauthorized"@,
            *self is InvalidAmount ==> r@ == "Invalid amount"@,
            *self is DuplicateGrant ==> r@ == "Duplicate employee account"@,
            *self is ClaimNotAvailableYet ==> r@ == "Claim not available yet"@,
            *self is InvalidVestingPeriod ==> r@ == "Invalid vesting period"@,
            *self is CalculationOverflow ==> r@ == "Calculation overflow"@,
            *self is NothingToClaim ==> r@ == "Nothing to claim"@,
    {
        match self {
            ErrorCode::DuplicatePlan => "Duplicate vesting account",
            ErrorCode::InvalidName => "Invalid company name",
            ErrorCode::Unauthorized => "Unauthorized",
            ErrorCode::InvalidAmount => "Invalid amount",
            ErrorCode::DuplicateGrant => "Duplicate employee account",
            ErrorCode::ClaimNotAvailableYet => "Claim not available yet",
            ErrorCode::InvalidVestingPeriod => "Invalid vesting period",
            ErrorCode::CalculationOverflow => "Calculation overflow",
            ErrorCode::NothingToClaim => "Nothing to claim",
        }
    }
}

} // verus!
