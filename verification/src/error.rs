//! The kinds of failure.

use vstd::prelude::*;

verus! {

/// Why an operation on the ledger was refused.
#[derive(Clone, Copy, Debug, PartialEq, Eq, Structural)]
pub enum ErrorCode {
    /// Checked arithmetic on the counters left the 64-bit range.
    CalculationOverflow,
    /// Kept for callers that report a bad answer of a service; no operation
    /// of the ledger returns it.
    InvalidApiResponse,
    /// A required signer is not the ledger's recorded authority.
    Unauthorized,
    /// A ledger already stands in the slot that was to be created.
    AlreadyInitialized,
    /// The authority offered for the mint is not the derived one.
    MintAuthorityInvalid,
}

impl ErrorCode {
    /// The text that goes with each kind.
    pub open spec fn message_text(self) -> Seq<char> {
        match self {
            ErrorCode::CalculationOverflow => "Calculation overflow occurred"@,
            ErrorCode::InvalidApiResponse => "Invalid API response"@,
            ErrorCode::Unauthorized => "Unauthorized access"@,
            ErrorCode::AlreadyInitialized => "Ledger already initialized"@,
            ErrorCode::MintAuthorityInvalid => "Mint authority invalid"@,
        }
    }

    /// The message of this kind of failure.
    pub fn message(&self) -> (text: String)
        ensures
            text@ == self.message_text(),
    {
        match self {
            ErrorCode::CalculationOverflow => "Calculation overflow occurred".to_string(),
            ErrorCode::InvalidApiResponse => "Invalid API response".to_string(),
            ErrorCode::Unauthorized => "Unauthorized access".to_string(),
            ErrorCode::AlreadyInitialized => "Ledger already initialized".to_string(),
            ErrorCode::MintAuthorityInvalid => "Mint authority invalid".to_string(),
        }
    }
}

} // verus!
