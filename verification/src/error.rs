use vstd::prelude::*;

verus! {

/// Why an operation was refused. Every refusal leaves the ledger untouched.
#[derive(Clone, Copy, Debug, PartialEq, Eq, Structural)]
pub enum GalnoError {
    /// The config record already exists.
    AlreadyInitialized,
    /// The caller is not the stored authority.
    Unauthorized,
    /// The source of a transfer holds less than the amount.
    InsufficientFunds,
    /// An address or bump does not match what the label derives to.
    InvalidDerivation,
    /// A deposit of zero was asked for.
    InvalidAmount,
    /// The destination's balance would exceed what a `u64` holds.
    BalanceOverflow,
}

impl GalnoError {
    /// The text shown for each refusal.
    pub open spec fn message_spec(&self) -> Seq<char> {
        match self {
            GalnoError::AlreadyInitialized => "AlreadyInitialized"@,
            GalnoError::Unauthorized => "Unauthorized"@,
            GalnoError::InsufficientFunds => "InsufficientFunds"@,
            GalnoError::InvalidDerivation => "InvalidDerivation"@,
            GalnoError::InvalidAmount => "InvalidAmount"@,
            GalnoError::BalanceOverflow => "BalanceOverflow"@,
        }
    }

    pub fn message(&self) -> (text: &'static str)
        ensures
            text@ == self.message_spec(),
    {
        match self {
            GalnoError::AlreadyInitialized => "AlreadyInitialized",
            GalnoError::Unauthorized => "Unauthorized",
            GalnoError::InsufficientFunds => "InsufficientFunds",
            GalnoError::InvalidDerivation => "InvalidDerivation",
            GalnoError::InvalidAmount => "InvalidAmount",
            GalnoError::BalanceOverflow => "BalanceOverflow",
        }
    }
}

} // verus!
