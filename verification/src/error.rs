//! What can go wrong with one transaction.
use vstd::prelude::*;

verus! {

/// Why a transaction was not applied.
///
/// Most errors concern one transaction only: it is skipped and the next one is taken.
/// The last three are faults: the accounts and the record of past transactions no longer
/// agree, or a balance has left the range of money, and nothing more may be applied.
#[derive(Clone, Copy, Debug, PartialEq, Eq, Structural)]
pub enum Error {
    /// The row could not be read as a transaction.
    MalformedRow,
    /// A deposit or withdrawal of a negative amount.
    InvalidAmount,
    /// A deposit or withdrawal without an amount.
    MissingAmount,
    /// A dispute, resolve or chargeback with an amount.
    UnexpectedAmount,
    /// A deposit or withdrawal under an identifier that was recorded before.
    DuplicateTransaction,
    /// The client's account is locked.
    AccountLocked,
    /// A withdrawal of more than is available.
    InsufficientFunds,
    /// A dispute, resolve or chargeback of a transaction that was never recorded.
    UnknownTransaction,
    /// A dispute, resolve or chargeback of another client's transaction.
    ClientMismatch,
    /// A dispute of a transaction under dispute, or a resolve or chargeback of one that
    /// is not.
    IncompatibleDisputeState,
    /// A dispute, resolve or chargeback of anything but a deposit.
    NotDisputable,
    /// Fault: less is held than a resolve or chargeback would release.
    InsufficientHeld,
    /// Fault: a recorded deposit has no amount.
    DepositWithoutAmount,
    /// Fault: a balance would leave the range of money.
    Overflow,
}

impl Error {
    /// Whether the error is a fault, after which nothing more may be applied.
    pub open spec fn spec_is_fatal(&self) -> bool {
        *self == Error::InsufficientHeld || *self == Error::DepositWithoutAmount || *self
            == Error::Overflow
    }

    /// Whether the error is a fault, after which nothing more may be applied.
    #[verifier::when_used_as_spec(spec_is_fatal)]
    pub fn is_fatal(&self) -> (r: bool)
        ensures
            r == self.is_fatal(),
    {
        match self {
            Error::InsufficientHeld | Error::DepositWithoutAmount | Error::Overflow => true,
            _ => false,
        }
    }
}

} // verus!
