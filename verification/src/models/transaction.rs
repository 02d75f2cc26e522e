//! Transactions and the checks on their form.
use crate::amount::{Amount, MONEY_SCALE};
use crate::decimal::decimal_lt;
use crate::error::Error;
use vstd::prelude::*;

verus! {

/// Types of transactions.
#[derive(Clone, Copy, Debug, PartialEq, Eq, Structural)]
pub enum TxTypes {
    Deposit,
    Withdrawal,
    Dispute,
    Resolve,
    Chargeback,
}

impl TxTypes {
    /// Whether the type moves funds in or out: a deposit or a withdrawal. The other three
    /// types refer to an earlier deposit.
    pub open spec fn spec_moves_funds(&self) -> bool {
        *self == TxTypes::Deposit || *self == TxTypes::Withdrawal
    }

    /// Whether the type moves funds in or out: a deposit or a withdrawal.
    #[verifier::when_used_as_spec(spec_moves_funds)]
    pub fn moves_funds(&self) -> (r: bool)
        ensures
            r == self.moves_funds(),
    {
        match self {
            TxTypes::Deposit | TxTypes::Withdrawal => true,
            _ => false,
        }
    }
}

/// One transaction, as it arrives and as it is recorded.
#[derive(Clone, Copy, Debug)]
pub struct Transaction {
    pub tx_type: TxTypes,
    /// Unique client identification number
    pub client: u16,
    /// Unique transaction number, or ID of transaction related to a dispute
    pub tx_id: u32,
    /// Amounts are not present with dispute related transactions
    pub amount: Option<Amount>,
    /// Whether the transaction is under dispute. Set by the engine.
    pub disputed: bool,
}

/// What validation makes of an amount on a transaction of the given type.
///
/// A deposit or withdrawal needs an amount that is not negative, and keeps it rounded to
/// four fractional digits. The other types must come without an amount.
pub open spec fn validated(amount: Option<Amount>, tx_type: TxTypes) -> Result<
    Option<Amount>,
    Error,
> {
    if tx_type.moves_funds() {
        match amount {
            None => Err(Error::MissingAmount),
            Some(a) => if a@ < 0 {
                Err(Error::InvalidAmount)
            } else {
                Ok(Some(a.rounded(MONEY_SCALE)))
            },
        }
    } else {
        match amount {
            None => Ok(None),
            Some(_) => Err(Error::UnexpectedAmount),
        }
    }
}

impl Transaction {
    /// Checks that the transaction is valid and rounds the amount to four fractional
    /// digits. Amounts must not be negative and only present on deposits or withdrawals.
    /// An amount that is rejected is left as it was.
    pub fn validate_transaction(amount: &mut Option<Amount>, tx_type: &TxTypes) -> (r: Result<
        (),
        Error,
    >)
        ensures
            match validated(*old(amount), *tx_type) {
                Ok(a) => r is Ok && *final(amount) == a,
                Err(e) => r == Err::<(), Error>(e) && *final(amount) == *old(amount),
            },
    {
        match tx_type {
            TxTypes::Deposit | TxTypes::Withdrawal => {
                Self::validate_deposit_withdrawal_structure(amount)
            },
            TxTypes::Dispute | TxTypes::Resolve | TxTypes::Chargeback => {
                Self::validate_dispute_related_structure(amount)
            },
        }
    }

    fn validate_deposit_withdrawal_structure(amount: &mut Option<Amount>) -> (r: Result<
        (),
        Error,
    >)
        ensures
            match validated(*old(amount), TxTypes::Deposit) {
                Ok(a) => r is Ok && *final(amount) == a,
                Err(e) => r == Err::<(), Error>(e) && *final(amount) == *old(amount),
            },
    {
        if let Some(tx_amount) = *amount {
            if decimal_lt(tx_amount, Amount::zero()) {
                Err(Error::InvalidAmount)
            } else {
                *amount = Some(tx_amount.round_dp(MONEY_SCALE));
                Ok(())
            }
        } else {
            Err(Error::MissingAmount)
        }
    }

    fn validate_dispute_related_structure(amount: &Option<Amount>) -> (r: Result<(), Error>)
        ensures
            match validated(*amount, TxTypes::Dispute) {
                Ok(a) => r is Ok,
                Err(e) => r == Err::<(), Error>(e),
            },
    {
        if amount.is_some() {
            Err(Error::UnexpectedAmount)
        } else {
            Ok(())
        }
    }

    /// Checks a dispute, resolve or chargeback against the state of the transaction it
    /// refers to. A resolve or chargeback (`tx_resolving`) needs a transaction under
    /// dispute; a dispute needs one that is not.
    pub fn check_transaction_dispute_valid(tx_resolving: bool, ledger_disputed: bool) -> (r:
        Result<(), Error>)
        ensures
            r == if tx_resolving == ledger_disputed {
                Ok::<(), Error>(())
            } else {
                Err::<(), Error>(Error::IncompatibleDisputeState)
            },
    {
        if tx_resolving != ledger_disputed {
            Err(Error::IncompatibleDisputeState)
        } else {
            Ok(())
        }
    }

    /// Only deposits may be disputed. A recorded deposit always has an amount.
    pub fn check_transaction_is_disputable(amount: Option<Amount>, tx_type: &TxTypes) -> (r:
        Result<(), Error>)
        requires
            *tx_type == TxTypes::Deposit ==> amount is Some,
        ensures
            r == if *tx_type == TxTypes::Deposit {
                Ok::<(), Error>(())
            } else {
                Err::<(), Error>(Error::NotDisputable)
            },
    {
        match tx_type {
            TxTypes::Deposit => Ok(()),
            _ => Err(Error::NotDisputable),
        }
    }
}

} // verus!
