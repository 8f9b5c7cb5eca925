use vstd::prelude::*;

verus! {

/// Why an operation was refused. A refused operation changes nothing.
#[derive(Clone, Copy, Debug, PartialEq, Eq, Structural)]
pub enum Error {
    /// The configuration has not been set yet.
    NotInitialized,
    /// The configuration has already been set.
    AlreadyInitialized,
    /// The contributor share is above one hundred percent.
    InvalidPercentage,
    /// A plan with the same content fingerprint is already listed.
    DuplicateContent,
    /// A plan is already stored under the given identifier.
    DuplicateId,
    /// No plan is stored under the given identifier.
    PlanNotFound,
    /// The account did not authorize the call, or may not perform it.
    Unauthorized,
    /// The amount offered is not positive.
    InvalidAmount,
    /// The asset transfers were rejected.
    TransferFailed,
}

impl Error {
    /// The text of each refusal.
    pub open spec fn message_text(self) -> Seq<char> {
        match self {
            Error::NotInitialized => "Not initialized"@,
            Error::AlreadyInitialized => "Already initialized"@,
            Error::InvalidPercentage => "Share percentage must be <= 100"@,
            Error::DuplicateContent => "Content with this hash already exists"@,
            Error::DuplicateId => "Plan with this id already exists"@,
            Error::PlanNotFound => "Plan not found"@,
            Error::Unauthorized => "Only admin or contributor can change tier"@,
            Error::InvalidAmount => "Amount must be positive"@,
            Error::TransferFailed => "Transfer failed"@,
        }
    }

    /// A short description of the refusal, fit for a log line or a panic.
    pub fn message(&self) -> (text: &'static str)
        ensures
            text@ == self.message_text(),
    {
        match self {
            Error::NotInitialized => "Not initialized",
            Error::AlreadyInitialized => "Already initialized",
            Error::InvalidPercentage => "Share percentage must be <= 100",
            Error::DuplicateContent => "Content with this hash already exists",
            Error::DuplicateId => "Plan with this id already exists",
            Error::PlanNotFound => "Plan not found",
            Error::Unauthorized => "Only admin or contributor can change tier",
            Error::InvalidAmount => "Amount must be positive",
            Error::TransferFailed => "Transfer failed",
        }
    }
}

} // verus!
