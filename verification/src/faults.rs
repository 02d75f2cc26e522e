//! Two of the three faults cannot happen where the ledger and the accounts were kept by
//! the engine itself.
//!
//! A resolve or chargeback asks for no more than is held as long as every account
//! holds at least what its client has under dispute on the ledger, and the engine keeps
//! that so. A recorded deposit always has its amount. What is left is the fault of a
//! balance that leaves the range of money.
use crate::amount::MONEY_SCALE;
use crate::client_repo::account_or_new;
use crate::error::Error;
use crate::models::client::AccountView;
use crate::models::transaction::{Transaction, TxTypes};
use crate::processor::{run, step, Ledger};
use vstd::prelude::*;

verus! {

/// What the entry under `id` adds to what `client` has under dispute.
pub open spec fn disputed_at(ledger: Ledger, client: u16, id: u32) -> int {
    if ledger.contains_key(id) && ledger[id].client == client && ledger[id].disputed
        && ledger[id].amount is Some {
        ledger[id].amount->Some_0@
    } else {
        0
    }
}

/// What `client` has under dispute among the entries with an identifier below `n`.
pub open spec fn disputed_below(ledger: Ledger, client: u16, n: nat) -> int
    decreases n,
{
    if n == 0 {
        0
    } else {
        disputed_below(ledger, client, (n - 1) as nat) + disputed_at(
            ledger,
            client,
            (n - 1) as u32,
        )
    }
}

/// What `client` has under dispute on the whole ledger.
pub open spec fn disputed_total(ledger: Ledger, client: u16) -> int {
    disputed_below(ledger, client, 0x1_0000_0000)
}

/// Every entry is a deposit or withdrawal with an amount that is not negative, and only
/// deposits are under dispute.
pub open spec fn ledger_sound(ledger: Ledger) -> bool {
    forall|id: u32| #[trigger]
        ledger.contains_key(id) ==> {
            &&& ledger[id].tx_type.moves_funds()
            &&& ledger[id].amount is Some
            &&& ledger[id].amount->Some_0@ >= 0
            &&& ledger[id].disputed ==> ledger[id].tx_type == TxTypes::Deposit
        }
}

/// Every client has at least as much held as it has under dispute on the ledger.
pub open spec fn holds_cover_disputes(ledger: Ledger, accounts: Map<u16, AccountView>) -> bool {
    forall|client: u16|
        #![trigger disputed_total(ledger, client)]
        account_or_new(accounts, client).held >= disputed_total(ledger, client)
}

/// The ledger and the accounts agree.
pub open spec fn consistent(ledger: Ledger, accounts: Map<u16, AccountView>) -> bool {
    ledger_sound(ledger) && holds_cover_disputes(ledger, accounts)
}

/// The transaction is as a feed delivers it: not marked as under dispute, and with an
/// amount, if it has one, that is well formed.
pub open spec fn as_delivered(tx: Transaction) -> bool {
    !tx.disputed && (tx.amount is Some ==> tx.amount->Some_0.wf())
}

/// Every row that could be read is as a feed delivers it.
pub open spec fn all_as_delivered(rows: Seq<Option<Transaction>>) -> bool {
    forall|i: int| 0 <= i < rows.len() && (#[trigger] rows[i]) is Some ==> as_delivered(rows[i]->Some_0)
}

/// Neither of the two faults that tell of a ledger and accounts that disagree.
pub open spec fn no_disagreement(outcome: Result<(), Error>) -> bool {
    outcome != Err::<(), Error>(Error::InsufficientHeld) && outcome != Err::<(), Error>(
        Error::DepositWithoutAmount,
    )
}

/// On a sound ledger nothing under dispute is negative.
proof fn lemma_disputed_at_not_negative(ledger: Ledger, client: u16, id: u32)
    requires
        ledger_sound(ledger),
    ensures
        disputed_at(ledger, client, id) >= 0,
{
    if ledger.contains_key(id) {
    }
}

/// On a sound ledger what is under dispute below `n` is at least what any one entry
/// below `n` adds to it.
proof fn lemma_disputed_below_covers(ledger: Ledger, client: u16, n: nat, id: u32)
    requires
        ledger_sound(ledger),
        n <= 0x1_0000_0000,
    ensures
        disputed_below(ledger, client, n) >= 0,
        id < n ==> disputed_below(ledger, client, n) >= disputed_at(ledger, client, id),
    decreases n,
{
    if n > 0 {
        lemma_disputed_below_covers(ledger, client, (n - 1) as nat, id);
        lemma_disputed_at_not_negative(ledger, client, (n - 1) as u32);
    }
}

/// Writing one entry changes what is under dispute by what that entry adds after and
/// before.
proof fn lemma_disputed_below_insert(
    ledger: Ledger,
    client: u16,
    n: nat,
    id: u32,
    entry: Transaction,
)
    requires
        n <= 0x1_0000_0000,
    ensures
        disputed_below(ledger.insert(id, entry), client, n) == disputed_below(ledger, client, n)
            + if id < n {
            disputed_at(ledger.insert(id, entry), client, id) - disputed_at(ledger, client, id)
        } else {
            0
        },
    decreases n,
{
    if n > 0 {
        lemma_disputed_below_insert(ledger, client, (n - 1) as nat, id, entry);
    }
}

/// Nothing is under dispute on an empty ledger.
pub proof fn lemma_nothing_disputed_on_empty(client: u16, n: nat)
    ensures
        disputed_below(Ledger::empty(), client, n) == 0,
    decreases n,
{
    if n > 0 {
        lemma_nothing_disputed_on_empty(client, (n - 1) as nat);
    }
}

/// Where the ledger and the accounts agree, a transaction that is as a feed delivers it
/// leaves them in agreement, and does not end in a fault that tells of their
/// disagreement.
pub proof fn lemma_step_keeps_consistent(
    ledger: Ledger,
    accounts: Map<u16, AccountView>,
    tx: Transaction,
)
    requires
        consistent(ledger, accounts),
        as_delivered(tx),
    ensures
        consistent(step(ledger, accounts, tx).ledger, step(ledger, accounts, tx).accounts),
        no_disagreement(step(ledger, accounts, tx).outcome),
{
    let s = step(ledger, accounts, tx);
    let id = tx.tx_id;
    if tx.amount is Some && tx.amount->Some_0@ >= 0 {
        tx.amount->Some_0.lemma_rounded_not_negative(MONEY_SCALE);
    }
    if ledger.contains_key(id) {
        lemma_disputed_below_covers(ledger, tx.client, 0x1_0000_0000, id);
        assert(account_or_new(accounts, tx.client).held >= disputed_total(ledger, tx.client));
    }
    assert forall|client: u16|
        account_or_new(s.accounts, client).held >= #[trigger] disputed_total(
            s.ledger,
            client,
        ) by {
        assert(account_or_new(accounts, client).held >= disputed_total(ledger, client));
        if s.ledger != ledger {
            lemma_disputed_below_insert(ledger, client, 0x1_0000_0000, id, s.ledger[id]);
            assert(s.ledger =~= ledger.insert(id, s.ledger[id]));
        }
    }
}

/// Where the ledger and the accounts agree, a feed whose rows are as a
/// feed delivers them, leaves them in agreement, and no row of it ends in a fault that tells of their
/// disagreement.
pub proof fn lemma_run_keeps_consistent(
    ledger: Ledger,
    accounts: Map<u16, AccountView>,
    rows: Seq<Option<Transaction>>,
)
    requires
        consistent(ledger, accounts),
        all_as_delivered(rows),
    ensures
        consistent(run(ledger, accounts, rows).ledger, run(ledger, accounts, rows).accounts),
        forall|i: int|
            0 <= i < run(ledger, accounts, rows).outcomes.len() ==> no_disagreement(
                #[trigger] run(ledger, accounts, rows).outcomes[i],
            ),
    decreases rows.len(),
{
    if rows.len() > 0 {
        let front = rows.drop_last();
        assert forall|i: int| 0 <= i < front.len() && (#[trigger] front[i]) is Some implies as_delivered(
            front[i]->Some_0,
        ) by {
            assert(front[i] == rows[i]);
        }
        lemma_run_keeps_consistent(ledger, accounts, front);
        let before = run(ledger, accounts, front);
        if !before.halted() {
            if rows.last() is Some {
                assert(rows[rows.len() - 1] == rows.last());
                lemma_step_keeps_consistent(before.ledger, before.accounts, rows.last()->Some_0);
            }
        }
    }
}

/// A feed that starts from an empty ledger, with nothing held below zero, and whose rows
/// are as a feed delivers them, never asks for more than is held and never finds a
/// deposit without its amount: the only fault that can end it is a balance that leaves
/// the range of money.
pub proof fn lemma_fresh_run_agrees(accounts: Map<u16, AccountView>, rows: Seq<Option<Transaction>>)
    requires
        forall|client: u16| #[trigger] accounts.contains_key(client) ==> accounts[client].held >= 0,
        all_as_delivered(rows),
    ensures
        forall|i: int|
            0 <= i < run(Ledger::empty(), accounts, rows).outcomes.len() ==> no_disagreement(
                #[trigger] run(Ledger::empty(), accounts, rows).outcomes[i],
            ),
        run(Ledger::empty(), accounts, rows).halted() ==> run(
            Ledger::empty(),
            accounts,
            rows,
        ).outcomes.last() == Err::<(), Error>(Error::Overflow),
{
    assert forall|client: u16|
        account_or_new(accounts, client).held >= #[trigger] disputed_total(
            Ledger::empty(),
            client,
        ) by {
        lemma_nothing_disputed_on_empty(client, 0x1_0000_0000);
    }
    lemma_run_keeps_consistent(Ledger::empty(), accounts, rows);
    let r = run(Ledger::empty(), accounts, rows);
    if r.halted() {
        assert(no_disagreement(r.outcomes[r.outcomes.len() - 1]));
    }
}

} // verus!
