use vstd::prelude::*;

verus! {

/// The domain errors of the ledger's operations.
#[derive(Clone, Copy, Debug, PartialEq, Eq, Structural)]
pub enum WoofiError {
    /// The caller, or a supplied account, fails an ownership or equality check.
    Unauthorized,
    /// A donation or withdrawal of zero.
    InvalidAmount,
    /// Declared for callers that resolve dogs themselves; no operation here raises it.
    DogNotFound,
    /// A withdrawal larger than the treasury's balance.
    InsufficientFunds,
    /// A dog name that is empty after trimming whitespace.
    InvalidDogName,
    /// A dog story that is empty after trimming whitespace.
    InvalidDogStory,
    /// An image URL that is empty after trimming whitespace.
    InvalidImageUrl,
}

impl WoofiError {
    /// The human-readable message that accompanies the error code.
    pub fn message(&self) -> (r: &'static str)
        ensures
            r@ == match self {
                WoofiError::Unauthorized => "Only the admin can perform this action"@,
                WoofiError::InvalidAmount => "Donation amount must be positive"@,
                WoofiError::DogNotFound => "The referenced dog does not exist"@,
                WoofiError::InsufficientFunds => "Insufficient funds for withdrawal"@,
                WoofiError::InvalidDogName => "Dog name cannot be empty"@,
                WoofiError::InvalidDogStory => "Dog story cannot be empty"@,
                WoofiError::InvalidImageUrl => "Image URL cannot be empty"@,
            },
    {
        match self {
            WoofiError::Unauthorized => "Only the admin can perform this action",
            WoofiError::InvalidAmount => "Donation amount must be positive",
            WoofiError::DogNotFound => "The referenced dog does not exist",
            WoofiError::InsufficientFunds => "Insufficient funds for withdrawal",
            WoofiError::InvalidDogName => "Dog name cannot be empty",
            WoofiError::InvalidDogStory => "Dog story cannot be empty",
            WoofiError::InvalidImageUrl => "Image URL cannot be empty",
        }
    }
}

/// Why an operation was refused. Every refusal leaves all records and
/// balances as they were.
#[derive(Clone, Copy, Debug, PartialEq, Eq, Structural)]
pub enum LedgerError {
    /// A domain error of the ledger.
    Program(WoofiError),
    /// A record was to be created at an address that already holds one.
    AccountInUse,
    /// A supplied account is not the one the platform names (the donation path).
    ConstraintAddress,
    /// The donor's balance cannot cover the transfer.
    InsufficientLamports,
    /// A counter, a running sum or a balance would leave its integer range;
    /// the operation aborts instead of wrapping.
    Overflow,
}

} // verus!
