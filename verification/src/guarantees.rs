//! What the rules of the engine guarantee, whatever the transactions are.
//!
//! Each statement here is about the spec functions of the engine, [`step`] and [`run`],
//! which the processor follows exactly.
use crate::error::Error;
use crate::models::client::AccountView;
use crate::models::transaction::Transaction;
use crate::processor::{apply, run, step, step_row, Ledger};
use vstd::prelude::*;

verus! {

/// In every account the total is what is available and what is held together.
pub open spec fn all_balanced(accounts: Map<u16, AccountView>) -> bool {
    forall|id: u16| #[trigger] accounts.contains_key(id) ==> accounts[id].balanced()
}

/// All accounts of `before` are still there in `after`, with the same balances and the
/// same lock.
pub open spec fn all_kept(before: Map<u16, AccountView>, after: Map<u16, AccountView>) -> bool {
    forall|id: u16| #[trigger]
        before.contains_key(id) ==> after.contains_key(id) && after[id] == before[id]
}

/// Every account of `after` that was not in `before` is a fresh one.
pub open spec fn all_new_fresh(before: Map<u16, AccountView>, after: Map<u16, AccountView>) -> bool {
    forall|id: u16| #[trigger]
        after.contains_key(id) && !before.contains_key(id) ==> after[id] == AccountView::new(id)
}

/// A transaction keeps an account in balance: if the total was what is available and
/// what is held together before, it is so after.
pub proof fn lemma_apply_keeps_balance(ledger: Ledger, account: AccountView, tx: Transaction)
    requires
        account.balanced(),
    ensures
        apply(ledger, account, tx).account.balanced(),
{
}

/// A transaction keeps all accounts in balance.
pub proof fn lemma_step_keeps_balance(
    ledger: Ledger,
    accounts: Map<u16, AccountView>,
    tx: Transaction,
)
    requires
        all_balanced(accounts),
    ensures
        all_balanced(step(ledger, accounts, tx).accounts),
{
}

/// A feed keeps all accounts in balance, at its end and after each of its rows.
pub proof fn lemma_run_keeps_balance(
    ledger: Ledger,
    accounts: Map<u16, AccountView>,
    rows: Seq<Option<Transaction>>,
)
    requires
        all_balanced(accounts),
    ensures
        all_balanced(run(ledger, accounts, rows).accounts),
        forall|i: int|
            0 <= i <= rows.len() ==> all_balanced(
                #[trigger] run(ledger, accounts, rows.take(i)).accounts,
            ),
    decreases rows.len(),
{
    if rows.len() > 0 {
        lemma_run_keeps_balance(ledger, accounts, rows.drop_last());
        let before = run(ledger, accounts, rows.drop_last());
        if !before.halted() {
            if rows.last() is Some {
                lemma_step_keeps_balance(before.ledger, before.accounts, rows.last()->Some_0);
            }
        }
    }
    assert forall|i: int| 0 <= i <= rows.len() implies all_balanced(
        #[trigger] run(ledger, accounts, rows.take(i)).accounts,
    ) by {
        if i == rows.len() {
            assert(rows.take(i) =~= rows);
        } else {
            assert(rows.drop_last().take(i) =~= rows.take(i));
        }
    }
}

/// No transaction changes a locked account: not its balances, and not its lock.
pub proof fn lemma_step_leaves_locked(
    ledger: Ledger,
    accounts: Map<u16, AccountView>,
    tx: Transaction,
    id: u16,
)
    requires
        accounts.contains_key(id),
        accounts[id].locked,
    ensures
        step(ledger, accounts, tx).accounts.contains_key(id),
        step(ledger, accounts, tx).accounts[id] == accounts[id],
{
}

/// No feed changes an account that is locked when the feed begins.
pub proof fn lemma_run_leaves_locked(
    ledger: Ledger,
    accounts: Map<u16, AccountView>,
    rows: Seq<Option<Transaction>>,
    id: u16,
)
    requires
        accounts.contains_key(id),
        accounts[id].locked,
    ensures
        run(ledger, accounts, rows).accounts.contains_key(id),
        run(ledger, accounts, rows).accounts[id] == accounts[id],
    decreases rows.len(),
{
    if rows.len() > 0 {
        lemma_run_leaves_locked(ledger, accounts, rows.drop_last(), id);
        let before = run(ledger, accounts, rows.drop_last());
        if !before.halted() {
            if rows.last() is Some {
                lemma_step_leaves_locked(
                    before.ledger,
                    before.accounts,
                    rows.last()->Some_0,
                    id,
                );
            }
        }
    }
}

/// A deposit or withdrawal under an identifier that is already on the ledger is
/// rejected, and changes neither the accounts nor the ledger.
pub proof fn lemma_duplicate_changes_nothing(
    ledger: Ledger,
    accounts: Map<u16, AccountView>,
    tx: Transaction,
)
    requires
        tx.tx_type.moves_funds(),
        ledger.contains_key(tx.tx_id),
    ensures
        step(ledger, accounts, tx).outcome is Err,
        step(ledger, accounts, tx).accounts == accounts,
        step(ledger, accounts, tx).ledger == ledger,
{
}

/// A dispute, resolve or chargeback of a transaction that is not on the ledger is
/// rejected. It changes no account that exists and not the ledger; all it may do is open
/// the account of its client, with nothing in it.
pub proof fn lemma_unknown_reference_changes_no_balance(
    ledger: Ledger,
    accounts: Map<u16, AccountView>,
    tx: Transaction,
)
    requires
        !tx.tx_type.moves_funds(),
        !ledger.contains_key(tx.tx_id),
    ensures
        step(ledger, accounts, tx).outcome is Err,
        tx.amount is None && !accounts.contains_key(tx.client) ==> step(
            ledger,
            accounts,
            tx,
        ).outcome == Err::<(), Error>(Error::UnknownTransaction),
        step(ledger, accounts, tx).ledger == ledger,
        all_kept(accounts, step(ledger, accounts, tx).accounts),
        all_new_fresh(accounts, step(ledger, accounts, tx).accounts),
{
}

/// A transaction that is rejected changes no account that exists and not the ledger; all
/// it may do is open the account of its client, with nothing in it.
pub proof fn lemma_rejected_changes_no_balance(
    ledger: Ledger,
    accounts: Map<u16, AccountView>,
    tx: Transaction,
)
    requires
        step(ledger, accounts, tx).outcome is Err,
    ensures
        step(ledger, accounts, tx).ledger == ledger,
        all_kept(accounts, step(ledger, accounts, tx).accounts),
        all_new_fresh(accounts, step(ledger, accounts, tx).accounts),
{
}

/// A row changes the account of its own client at most, and removes none.
pub proof fn lemma_step_row_touches_one_account(
    ledger: Ledger,
    accounts: Map<u16, AccountView>,
    row: Option<Transaction>,
    id: u16,
)
    requires
        accounts.contains_key(id),
        row matches Some(tx) ==> tx.client != id,
    ensures
        step_row(ledger, accounts, row).accounts.contains_key(id),
        step_row(ledger, accounts, row).accounts[id] == accounts[id],
{
}

} // verus!
