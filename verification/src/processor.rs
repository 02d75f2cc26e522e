//! The engine: what one transaction does to the ledger and to the accounts, and what a
//! whole feed of them does.
//!
//! The rules are written down twice. The spec functions [`apply`], [`step`] and [`run`]
//! say what a transaction, and a feed of transactions, does to a ledger and a map of
//! accounts. The methods of [`Processor`] do it, and their contracts say that they do
//! exactly what the spec functions say.
use crate::amount::Amount;
use crate::client_repo::{account_or_new, ClientRepo};
use crate::decimal::decimal_lt;
use crate::error::Error;
use crate::models::client::{AccountView, Client};
use crate::models::transaction::{validated, Transaction, TxTypes};
use std::collections::HashMap;
use vstd::prelude::*;

verus! {

/// The record of past deposits and withdrawals, by transaction identifier.
pub type Ledger = Map<u32, Transaction>;

/// What one transaction makes of the ledger and of the account it acts on.
pub struct Applied {
    pub ledger: Ledger,
    pub account: AccountView,
    pub outcome: Result<(), Error>,
}

/// What one transaction makes of the ledger and of all accounts.
pub struct Step {
    pub ledger: Ledger,
    pub accounts: Map<u16, AccountView>,
    pub outcome: Result<(), Error>,
}

/// What a feed makes of the ledger and of all accounts, with the outcome of each row
/// that was taken.
pub struct Run {
    pub ledger: Ledger,
    pub accounts: Map<u16, AccountView>,
    pub outcomes: Seq<Result<(), Error>>,
}

/// The account after a deposit or withdrawal of `amount`, or why there is none.
pub open spec fn moved(account: AccountView, tx_type: TxTypes, amount: Amount) -> Result<
    AccountView,
    Error,
> {
    if tx_type == TxTypes::Deposit {
        if account.can_deposit(amount) {
            Ok(account.deposit(amount@))
        } else {
            Err(Error::Overflow)
        }
    } else {
        if !account.can_withdraw(amount) {
            Err(Error::Overflow)
        } else if amount@ > account.available {
            Err(Error::InsufficientFunds)
        } else {
            Ok(account.withdraw(amount@))
        }
    }
}

/// The recorded transaction that a dispute, resolve or chargeback of `client` refers to
/// by `tx_id`, or why it cannot be acted on. A resolve or chargeback (`resolving`) needs
/// a transaction under dispute, a dispute one that is not. What comes back is a deposit
/// of that client with an amount.
pub open spec fn referenced(ledger: Ledger, client: u16, tx_id: u32, resolving: bool) -> Result<
    Transaction,
    Error,
> {
    if !ledger.contains_key(tx_id) {
        Err(Error::UnknownTransaction)
    } else if ledger[tx_id].client != client {
        Err(Error::ClientMismatch)
    } else if ledger[tx_id].disputed != resolving {
        Err(Error::IncompatibleDisputeState)
    } else if ledger[tx_id].tx_type != TxTypes::Deposit {
        Err(Error::NotDisputable)
    } else if ledger[tx_id].amount is None {
        Err(Error::DepositWithoutAmount)
    } else {
        Ok(ledger[tx_id])
    }
}

/// The account after a dispute, resolve or chargeback over `amount`, or why there is
/// none.
pub open spec fn settled(account: AccountView, tx_type: TxTypes, amount: Amount) -> Result<
    AccountView,
    Error,
> {
    if tx_type == TxTypes::Dispute {
        if account.can_dispute(amount) {
            Ok(account.dispute(amount@))
        } else {
            Err(Error::Overflow)
        }
    } else if amount@ > account.held {
        Err(Error::InsufficientHeld)
    } else if tx_type == TxTypes::Resolve {
        if account.can_resolve(amount) {
            Ok(account.resolve(amount@))
        } else {
            Err(Error::Overflow)
        }
    } else {
        if account.can_chargeback(amount) {
            Ok(account.chargeback(amount@))
        } else {
            Err(Error::Overflow)
        }
    }
}

/// What a validated transaction does to the ledger and to the account of its client.
///
/// A deposit or withdrawal changes the balances and is then recorded. A dispute, resolve
/// or chargeback changes the balances by the amount of the deposit it refers to, and
/// marks that deposit as under dispute or no longer so. Where the outcome is an error,
/// neither the ledger nor the account changes.
pub open spec fn apply(ledger: Ledger, account: AccountView, tx: Transaction) -> Applied {
    if tx.tx_type.moves_funds() {
        match tx.amount {
            None => Applied { ledger, account, outcome: Err(Error::MissingAmount) },
            Some(amount) => match moved(account, tx.tx_type, amount) {
                Err(e) => Applied { ledger, account, outcome: Err(e) },
                Ok(after) => Applied {
                    ledger: ledger.insert(tx.tx_id, tx),
                    account: after,
                    outcome: Ok(()),
                },
            },
        }
    } else {
        match referenced(ledger, tx.client, tx.tx_id, tx.tx_type != TxTypes::Dispute) {
            Err(e) => Applied { ledger, account, outcome: Err(e) },
            Ok(entry) => match settled(account, tx.tx_type, entry.amount->Some_0) {
                Err(e) => Applied { ledger, account, outcome: Err(e) },
                Ok(after) => Applied {
                    ledger: ledger.insert(
                        tx.tx_id,
                        Transaction { disputed: tx.tx_type == TxTypes::Dispute, ..entry },
                    ),
                    account: after,
                    outcome: Ok(()),
                },
            },
        }
    }
}

/// What one transaction of the feed does to the ledger and to the accounts.
///
/// The transaction is validated first, and its amount rounded. A deposit or withdrawal
/// under an identifier that is already recorded is rejected next. Then the account of the
/// client is looked up, and opened if there is none yet; a locked account rejects the
/// transaction. At last the transaction is applied to the account. An account that was
/// opened stays, whatever comes of the transaction.
pub open spec fn step(ledger: Ledger, accounts: Map<u16, AccountView>, tx: Transaction) -> Step {
    match validated(tx.amount, tx.tx_type) {
        Err(e) => Step { ledger, accounts, outcome: Err(e) },
        Ok(amount) => {
            let tx = Transaction { amount, ..tx };
            let account = account_or_new(accounts, tx.client);
            if tx.tx_type.moves_funds() && ledger.contains_key(tx.tx_id) {
                Step { ledger, accounts, outcome: Err(Error::DuplicateTransaction) }
            } else if account.locked {
                Step { ledger, accounts, outcome: Err(Error::AccountLocked) }
            } else {
                let applied = apply(ledger, account, tx);
                Step {
                    ledger: applied.ledger,
                    accounts: accounts.insert(tx.client, applied.account),
                    outcome: applied.outcome,
                }
            }
        },
    }
}

/// What one row of the feed does: a row that could not be read changes nothing.
pub open spec fn step_row(
    ledger: Ledger,
    accounts: Map<u16, AccountView>,
    row: Option<Transaction>,
) -> Step {
    match row {
        None => Step { ledger, accounts, outcome: Err(Error::MalformedRow) },
        Some(tx) => step(ledger, accounts, tx),
    }
}

impl Run {
    /// Whether the last row that was taken ended in a fault.
    pub open spec fn halted(self) -> bool {
        self.outcomes.len() > 0 && self.outcomes.last() is Err
            && self.outcomes.last()->Err_0.is_fatal()
    }
}

/// What a feed does to the ledger and to the accounts: the rows are taken in order, each
/// from where the one before left off, until the feed ends or a row ends in a fault.
pub open spec fn run(
    ledger: Ledger,
    accounts: Map<u16, AccountView>,
    rows: Seq<Option<Transaction>>,
) -> Run
    decreases rows.len(),
{
    if rows.len() == 0 {
        Run { ledger, accounts, outcomes: Seq::empty() }
    } else {
        let before = run(ledger, accounts, rows.drop_last());
        if before.halted() {
            before
        } else {
            let s = step_row(before.ledger, before.accounts, rows.last());
            Run {
                ledger: s.ledger,
                accounts: s.accounts,
                outcomes: before.outcomes.push(s.outcome),
            }
        }
    }
}

/// Once a row has ended in a fault, the rows after it change nothing.
pub proof fn lemma_run_stays_halted(
    ledger: Ledger,
    accounts: Map<u16, AccountView>,
    rows: Seq<Option<Transaction>>,
    i: int,
)
    requires
        0 <= i <= rows.len(),
        i < rows.len() ==> run(ledger, accounts, rows.take(i)).halted(),
    ensures
        run(ledger, accounts, rows) == run(ledger, accounts, rows.take(i)),
    decreases rows.len(),
{
    if i == rows.len() {
        assert(rows.take(i) =~= rows);
    } else {
        assert(rows.drop_last().take(i) =~= rows.take(i));
        lemma_run_stays_halted(ledger, accounts, rows.drop_last(), i);
    }
}

/// The main engine for processing transactions, making calls to clients, and ensuring
/// that transactions are applied according to the rules of the system. Keeps a ledger as
/// a record of withdrawals and deposits.
#[derive(Debug)]
pub struct Processor {
    ledger: HashMap<u32, Transaction>,
}

impl View for Processor {
    type V = Ledger;

    /// The ledger.
    closed spec fn view(&self) -> Ledger {
        self.ledger@
    }
}

impl Default for Processor {
    /// A processor with nothing on its ledger.
    fn default() -> (p: Self)
        ensures
            p@ == Ledger::empty(),
    {
        Processor::new()
    }
}

impl Processor {
    /// A processor with nothing on its ledger.
    pub fn new() -> (p: Self)
        ensures
            p@ == Ledger::empty(),
    {
        Self { ledger: HashMap::new() }
    }

    /// Iterates through the feed with a processor of its own, handling the rows one by
    /// one and updating the clients. A row that could not be read, or that breaks a rule,
    /// is skipped; a row that ends in a fault ends the run. What comes back is the
    /// outcome of each row that was taken, in order.
    pub fn handle_transactions(feed: Vec<Option<Transaction>>, clients: &mut ClientRepo) -> (outcomes:
        Vec<Result<(), Error>>)
        requires
            old(clients).wf(),
        ensures
            final(clients).wf(),
            final(clients)@ == run(Ledger::empty(), old(clients)@, feed@).accounts,
            outcomes@ == run(Ledger::empty(), old(clients)@, feed@).outcomes,
    {
        let mut processor = Processor::default();
        let mut outcomes: Vec<Result<(), Error>> = Vec::new();
        let mut halted = false;
        let mut i: usize = 0;
        let ghost start = clients@;
        while i < feed.len() && !halted
            invariant
                i <= feed.len(),
                clients.wf(),
                run(Ledger::empty(), start, feed@.take(i as int)) == (Run {
                    ledger: processor@,
                    accounts: clients@,
                    outcomes: outcomes@,
                }),
                halted == run(Ledger::empty(), start, feed@.take(i as int)).halted(),
            decreases feed.len() - i,
        {
            let outcome = match feed[i] {
                None => Err(Error::MalformedRow),
                Some(tx) => processor.handle_transaction(clients, tx),
            };
            halted = match outcome {
                Ok(_) => false,
                Err(e) => e.is_fatal(),
            };
            outcomes.push(outcome);
            proof {
                assert(feed@.take(i + 1).drop_last() =~= feed@.take(i as int));
            }
            i += 1;
        }
        proof {
            lemma_run_stays_halted(Ledger::empty(), start, feed@, i as int);
        }
        outcomes
    }

    /// Handles one transaction: validates it, rejects a deposit or withdrawal that was
    /// recorded before, looks up the account of its client, which must not be locked,
    /// and applies it. A deposit or withdrawal that was applied is recorded on the ledger.
    pub fn handle_transaction(&mut self, clients: &mut ClientRepo, transaction: Transaction) -> (r:
        Result<(), Error>)
        requires
            old(clients).wf(),
        ensures
            final(clients).wf(),
            final(self)@ == step(old(self)@, old(clients)@, transaction).ledger,
            final(clients)@ == step(old(self)@, old(clients)@, transaction).accounts,
            r == step(old(self)@, old(clients)@, transaction).outcome,
    {
        let mut tx = transaction;
        Transaction::validate_transaction(&mut tx.amount, &tx.tx_type)?;
        if tx.tx_type.moves_funds() && self.ledger.contains_key(&tx.tx_id) {
            return Err(Error::DuplicateTransaction);
        }
        let ghost before = clients@;
        match clients.get_client(tx.client) {
            Ok(client) => {
                let ghost account = client@;
                let r = self.process_transaction(client, tx);
                assert(clients@ =~= before.insert(tx.client, apply(old(self)@, account, tx).account));
                r
            },
            Err(e) => Err(e),
        }
    }

    /// A client may only act on its own transactions.
    fn check_client_ids_match(id1: u16, id2: u16) -> (r: Result<(), Error>)
        ensures
            r == if id1 == id2 {
                Ok::<(), Error>(())
            } else {
                Err::<(), Error>(Error::ClientMismatch)
            },
    {
        if id1 != id2 {
            Err(Error::ClientMismatch)
        } else {
            Ok(())
        }
    }

    /// Looks up the recorded transaction that a dispute, resolve or chargeback refers
    /// to, and checks that `client` may act on it in this way.
    fn get_disputed_transaction(&self, client: &Client, tx_id: u32, resolving: bool) -> (r:
        Result<Transaction, Error>)
        ensures
            r == referenced(self@, client.id(), tx_id, resolving),
    {
        match self.ledger.get(&tx_id) {
            Some(tx) => {
                Processor::check_client_ids_match(tx.client, client.id())?;
                Transaction::check_transaction_dispute_valid(resolving, tx.disputed)?;
                if tx.tx_type == TxTypes::Deposit && tx.amount.is_none() {
                    return Err(Error::DepositWithoutAmount);
                }
                Transaction::check_transaction_is_disputable(tx.amount, &tx.tx_type)?;
                Ok(*tx)
            },
            None => Err(Error::UnknownTransaction),
        }
    }

    /// Applies a deposit or withdrawal to the account.
    fn handle_deposits_withdrawals(transaction: &Transaction, client: &mut Client) -> (r: Result<
        (),
        Error,
    >)
        requires
            old(client).wf(),
            transaction.tx_type.moves_funds(),
            transaction.amount is Some,
        ensures
            final(client).wf(),
            match moved(old(client)@, transaction.tx_type, transaction.amount->Some_0) {
                Ok(after) => r is Ok && final(client)@ == after,
                Err(e) => r == Err::<(), Error>(e) && final(client)@ == old(client)@,
            },
    {
        let amount = transaction.amount.unwrap();
        match transaction.tx_type {
            TxTypes::Deposit => {
                if !client.can_deposit(amount) {
                    return Err(Error::Overflow);
                }
                client.deposit(amount);
                Ok(())
            },
            _ => {
                if !client.can_withdraw(amount) {
                    return Err(Error::Overflow);
                }
                client.withdraw(amount)
            },
        }
    }

    /// Why a resolve or chargeback of `amount` cannot be applied to the account.
    fn held_fault(client: &Client, amount: Amount) -> (e: Error)
        ensures
            e == if amount@ > client@.held {
                Error::InsufficientHeld
            } else {
                Error::Overflow
            },
    {
        if decimal_lt(client.held(), amount) {
            Error::InsufficientHeld
        } else {
            Error::Overflow
        }
    }

    /// Applies a dispute, resolve or chargeback to the account, by the amount of the
    /// deposit it refers to, and marks that deposit on the ledger.
    fn handle_disputed_transaction(
        &mut self,
        client: &mut Client,
        transaction: &Transaction,
        resolving: bool,
    ) -> (r: Result<(), Error>)
        requires
            old(client).wf(),
            !transaction.tx_type.moves_funds(),
            resolving == (transaction.tx_type != TxTypes::Dispute),
            transaction.client == old(client).id(),
        ensures
            final(client).wf(),
            final(self)@ == apply(old(self)@, old(client)@, *transaction).ledger,
            final(client)@ == apply(old(self)@, old(client)@, *transaction).account,
            r == apply(old(self)@, old(client)@, *transaction).outcome,
    {
        let tx = self.get_disputed_transaction(client, transaction.tx_id, resolving)?;
        let amount = tx.amount.unwrap();
        match transaction.tx_type {
            TxTypes::Dispute => {
                if !client.can_dispute(amount) {
                    return Err(Error::Overflow);
                }
                client.dispute(amount);
            },
            TxTypes::Resolve => {
                if !client.can_resolve(amount) {
                    return Err(Self::held_fault(client, amount));
                }
                client.resolve(amount);
            },
            _ => {
                if !client.can_chargeback(amount) {
                    return Err(Self::held_fault(client, amount));
                }
                client.chargeback(amount);
            },
        }
        self.ledger.insert(transaction.tx_id, Transaction { disputed: !resolving, ..tx });
        Ok(())
    }

    /// Applies a validated transaction to the account of its client, and records a
    /// deposit or withdrawal that was applied.
    fn process_transaction(&mut self, client: &mut Client, transaction: Transaction) -> (r:
        Result<(), Error>)
        requires
            old(client).wf(),
            transaction.client == old(client).id(),
            transaction.tx_type.moves_funds() ==> transaction.amount is Some,
        ensures
            final(client).wf(),
            final(client).id() == old(client).id(),
            final(self)@ == apply(old(self)@, old(client)@, transaction).ledger,
            final(client)@ == apply(old(self)@, old(client)@, transaction).account,
            r == apply(old(self)@, old(client)@, transaction).outcome,
    {
        match transaction.tx_type {
            TxTypes::Deposit | TxTypes::Withdrawal => {
                Self::handle_deposits_withdrawals(&transaction, client)?;
                self.ledger.insert(transaction.tx_id, transaction);
                Ok(())
            },
            TxTypes::Dispute | TxTypes::Resolve | TxTypes::Chargeback => {
                let resolving = transaction.tx_type != TxTypes::Dispute;
                self.handle_disputed_transaction(client, &transaction, resolving)
            },
        }
    }
}

} // verus!
