use transaction_processor::amount::{Amount, MAX_MANTISSA};
use transaction_processor::client_repo::ClientRepo;
use transaction_processor::error::Error;
use transaction_processor::models::transaction::{Transaction, TxTypes};
use transaction_processor::processor::Processor;

fn deposit(client: u16, tx_id: u32, amount: Amount) -> Transaction {
    Transaction { tx_type: TxTypes::Deposit, client, tx_id, amount: Some(amount), disputed: false }
}

fn withdrawal(client: u16, tx_id: u32, amount: Amount) -> Transaction {
    Transaction {
        tx_type: TxTypes::Withdrawal,
        client,
        tx_id,
        amount: Some(amount),
        disputed: false,
    }
}

fn dispute(client: u16, tx_id: u32) -> Transaction {
    Transaction { tx_type: TxTypes::Dispute, client, tx_id, amount: None, disputed: false }
}

fn resolve(client: u16, tx_id: u32) -> Transaction {
    Transaction { tx_type: TxTypes::Resolve, client, tx_id, amount: None, disputed: false }
}

fn chargeback(client: u16, tx_id: u32) -> Transaction {
    Transaction { tx_type: TxTypes::Chargeback, client, tx_id, amount: None, disputed: false }
}

fn balances(repo: &ClientRepo, client: u16) -> (Amount, Amount, Amount, bool) {
    let c = &repo.clients[&client];
    (c.available(), c.held(), c.total(), c.locked)
}

fn money(ten_thousandths: i64) -> Amount {
    Amount::new(ten_thousandths, 4)
}

#[test]
fn two_deposits_add_up() {
    let mut repo = ClientRepo::new();
    let outcomes = Processor::handle_transactions(
        vec![Some(deposit(1, 1, Amount::new(10, 1))), Some(deposit(1, 2, Amount::new(20, 1)))],
        &mut repo,
    );
    assert_eq!(outcomes, vec![Ok(()), Ok(())]);
    assert_eq!(balances(&repo, 1), (money(30000), money(0), money(30000), false));
    assert_eq!(repo.clients.len(), 1);
}

#[test]
fn withdrawal_of_more_than_available_is_rejected() {
    let mut repo = ClientRepo::new();
    let outcomes = Processor::handle_transactions(
        vec![Some(deposit(1, 1, Amount::new(50, 1))), Some(withdrawal(1, 2, Amount::new(60, 1)))],
        &mut repo,
    );
    assert_eq!(outcomes, vec![Ok(()), Err(Error::InsufficientFunds)]);
    assert_eq!(balances(&repo, 1), (money(50000), money(0), money(50000), false));
}

#[test]
fn dispute_holds_the_deposit() {
    let mut repo = ClientRepo::new();
    let outcomes = Processor::handle_transactions(
        vec![Some(deposit(1, 1, Amount::new(50, 1))), Some(dispute(1, 1))],
        &mut repo,
    );
    assert_eq!(outcomes, vec![Ok(()), Ok(())]);
    assert_eq!(balances(&repo, 1), (money(0), money(50000), money(50000), false));
}

#[test]
fn chargeback_removes_the_deposit_and_locks() {
    let mut repo = ClientRepo::new();
    let outcomes = Processor::handle_transactions(
        vec![
            Some(deposit(1, 1, Amount::new(50, 1))),
            Some(dispute(1, 1)),
            Some(chargeback(1, 1)),
            Some(deposit(1, 2, Amount::new(10, 1))),
        ],
        &mut repo,
    );
    assert_eq!(outcomes, vec![Ok(()), Ok(()), Ok(()), Err(Error::AccountLocked)]);
    assert_eq!(balances(&repo, 1), (money(0), money(0), money(0), true));
}

#[test]
fn dispute_of_an_unknown_transaction_is_reported() {
    let mut repo = ClientRepo::new();
    let outcomes = Processor::handle_transactions(vec![Some(dispute(1, 99))], &mut repo);
    assert_eq!(outcomes, vec![Err(Error::UnknownTransaction)]);
    assert_eq!(balances(&repo, 1), (money(0), money(0), money(0), false));
    assert_eq!(repo.clients.len(), 1);
}

#[test]
fn unknown_reference_leaves_an_existing_account_as_it_was() {
    let mut repo = ClientRepo::new();
    let mut processor = Processor::new();
    assert_eq!(processor.handle_transaction(&mut repo, deposit(1, 1, money(12345))), Ok(()));
    for tx in [dispute(1, 2), resolve(1, 2), chargeback(1, 2)] {
        assert_eq!(processor.handle_transaction(&mut repo, tx), Err(Error::UnknownTransaction));
        assert_eq!(balances(&repo, 1), (money(12345), money(0), money(12345), false));
    }
}

#[test]
fn resolve_releases_the_deposit() {
    let mut repo = ClientRepo::new();
    let outcomes = Processor::handle_transactions(
        vec![
            Some(deposit(1, 1, money(50000))),
            Some(deposit(1, 2, money(20000))),
            Some(dispute(1, 2)),
            Some(resolve(1, 2)),
        ],
        &mut repo,
    );
    assert_eq!(outcomes, vec![Ok(()), Ok(()), Ok(()), Ok(())]);
    assert_eq!(balances(&repo, 1), (money(70000), money(0), money(70000), false));
}

#[test]
fn a_resolved_deposit_can_be_disputed_again() {
    let mut repo = ClientRepo::new();
    let outcomes = Processor::handle_transactions(
        vec![
            Some(deposit(1, 1, money(50000))),
            Some(dispute(1, 1)),
            Some(resolve(1, 1)),
            Some(dispute(1, 1)),
        ],
        &mut repo,
    );
    assert_eq!(outcomes, vec![Ok(()), Ok(()), Ok(()), Ok(())]);
    assert_eq!(balances(&repo, 1), (money(0), money(50000), money(50000), false));
}

#[test]
fn duplicate_deposit_changes_nothing() {
    let mut repo = ClientRepo::new();
    let outcomes = Processor::handle_transactions(
        vec![
            Some(deposit(1, 1, money(50000))),
            Some(deposit(1, 1, money(50000))),
            Some(withdrawal(1, 1, money(10000))),
            Some(deposit(2, 1, money(10000))),
        ],
        &mut repo,
    );
    assert_eq!(
        outcomes,
        vec![
            Ok(()),
            Err(Error::DuplicateTransaction),
            Err(Error::DuplicateTransaction),
            Err(Error::DuplicateTransaction)
        ]
    );
    assert_eq!(balances(&repo, 1), (money(50000), money(0), money(50000), false));
    assert_eq!(repo.clients.len(), 1);
}

#[test]
fn rejected_withdrawal_is_not_recorded() {
    let mut repo = ClientRepo::new();
    let outcomes = Processor::handle_transactions(
        vec![
            Some(withdrawal(1, 1, money(10000))),
            Some(deposit(1, 1, money(30000))),
            Some(dispute(1, 1)),
        ],
        &mut repo,
    );
    assert_eq!(outcomes, vec![Err(Error::InsufficientFunds), Ok(()), Ok(())]);
    assert_eq!(balances(&repo, 1), (money(0), money(30000), money(30000), false));
}

#[test]
fn dispute_of_another_clients_deposit_is_rejected() {
    let mut repo = ClientRepo::new();
    let outcomes = Processor::handle_transactions(
        vec![Some(deposit(1, 1, money(50000))), Some(dispute(2, 1))],
        &mut repo,
    );
    assert_eq!(outcomes, vec![Ok(()), Err(Error::ClientMismatch)]);
    assert_eq!(balances(&repo, 1), (money(50000), money(0), money(50000), false));
    assert_eq!(balances(&repo, 2), (money(0), money(0), money(0), false));
}

#[test]
fn dispute_chain_out_of_order_is_rejected() {
    let mut repo = ClientRepo::new();
    let outcomes = Processor::handle_transactions(
        vec![
            Some(deposit(1, 1, money(50000))),
            Some(resolve(1, 1)),
            Some(chargeback(1, 1)),
            Some(dispute(1, 1)),
            Some(dispute(1, 1)),
        ],
        &mut repo,
    );
    assert_eq!(
        outcomes,
        vec![
            Ok(()),
            Err(Error::IncompatibleDisputeState),
            Err(Error::IncompatibleDisputeState),
            Ok(()),
            Err(Error::IncompatibleDisputeState)
        ]
    );
    assert_eq!(balances(&repo, 1), (money(0), money(50000), money(50000), false));
}

#[test]
fn withdrawal_cannot_be_disputed() {
    let mut repo = ClientRepo::new();
    let outcomes = Processor::handle_transactions(
        vec![
            Some(deposit(1, 1, money(50000))),
            Some(withdrawal(1, 2, money(20000))),
            Some(dispute(1, 2)),
            Some(resolve(1, 2)),
        ],
        &mut repo,
    );
    assert_eq!(
        outcomes,
        vec![Ok(()), Ok(()), Err(Error::NotDisputable), Err(Error::IncompatibleDisputeState)]
    );
    assert_eq!(balances(&repo, 1), (money(30000), money(0), money(30000), false));
}

#[test]
fn dispute_after_withdrawal_leaves_available_negative() {
    let mut repo = ClientRepo::new();
    let outcomes = Processor::handle_transactions(
        vec![
            Some(deposit(1, 1, money(50000))),
            Some(withdrawal(1, 2, money(40000))),
            Some(dispute(1, 1)),
            Some(chargeback(1, 1)),
        ],
        &mut repo,
    );
    assert_eq!(outcomes, vec![Ok(()), Ok(()), Ok(()), Ok(())]);
    assert_eq!(balances(&repo, 1), (money(-40000), money(0), money(-40000), true));
}

#[test]
fn malformed_and_invalid_rows_are_skipped() {
    let mut repo = ClientRepo::new();
    let outcomes = Processor::handle_transactions(
        vec![
            None,
            Some(deposit(1, 1, money(-1))),
            Some(Transaction {
                tx_type: TxTypes::Deposit,
                client: 1,
                tx_id: 2,
                amount: None,
                disputed: false,
            }),
            Some(Transaction {
                tx_type: TxTypes::Dispute,
                client: 1,
                tx_id: 3,
                amount: Some(money(1)),
                disputed: false,
            }),
            Some(deposit(1, 4, money(10000))),
        ],
        &mut repo,
    );
    assert_eq!(
        outcomes,
        vec![
            Err(Error::MalformedRow),
            Err(Error::InvalidAmount),
            Err(Error::MissingAmount),
            Err(Error::UnexpectedAmount),
            Ok(())
        ]
    );
    assert_eq!(balances(&repo, 1), (money(10000), money(0), money(10000), false));
}

#[test]
fn invalid_rows_open_no_account() {
    let mut repo = ClientRepo::new();
    let outcomes = Processor::handle_transactions(
        vec![None, Some(deposit(5, 1, money(-1)))],
        &mut repo,
    );
    assert_eq!(outcomes, vec![Err(Error::MalformedRow), Err(Error::InvalidAmount)]);
    assert!(repo.clients.is_empty());
}

#[test]
fn amounts_are_rounded_once_on_the_way_in() {
    let mut repo = ClientRepo::new();
    let outcomes = Processor::handle_transactions(
        vec![
            Some(deposit(1, 1, Amount::new(100005, 5))),
            Some(deposit(1, 2, Amount::new(100015, 5))),
            Some(withdrawal(1, 3, Amount::new(4, 5))),
            Some(dispute(1, 2)),
        ],
        &mut repo,
    );
    assert_eq!(outcomes, vec![Ok(()), Ok(()), Ok(()), Ok(())]);
    assert_eq!(balances(&repo, 1), (money(10000), money(10002), money(20002), false));
}

#[test]
fn locked_account_rejects_every_type() {
    let mut repo = ClientRepo::new();
    let mut processor = Processor::new();
    for tx in [
        deposit(1, 1, money(50000)),
        deposit(1, 2, money(10000)),
        dispute(1, 1),
        dispute(1, 2),
        chargeback(1, 1),
    ] {
        assert_eq!(processor.handle_transaction(&mut repo, tx), Ok(()));
    }
    let locked = (money(0), money(10000), money(10000), true);
    assert_eq!(balances(&repo, 1), locked);
    for tx in [
        deposit(1, 3, money(10000)),
        withdrawal(1, 4, money(1)),
        dispute(1, 1),
        resolve(1, 2),
        chargeback(1, 2),
        dispute(1, 77),
    ] {
        assert_eq!(processor.handle_transaction(&mut repo, tx), Err(Error::AccountLocked));
        assert_eq!(balances(&repo, 1), locked);
    }
    assert_eq!(processor.handle_transaction(&mut repo, deposit(2, 5, money(1))), Ok(()));
    assert_eq!(balances(&repo, 1), locked);
}

#[test]
fn deposit_beyond_the_range_of_money_ends_the_run() {
    let largest = Amount::from_parts(MAX_MANTISSA, 4).unwrap();
    let mut repo = ClientRepo::new();
    let outcomes = Processor::handle_transactions(
        vec![
            Some(deposit(1, 1, largest)),
            Some(deposit(1, 2, money(1))),
            Some(deposit(1, 3, money(1))),
        ],
        &mut repo,
    );
    assert_eq!(outcomes, vec![Ok(()), Err(Error::Overflow)]);
    assert_eq!(balances(&repo, 1), (largest, money(0), largest, false));
}

#[test]
fn resolve_of_more_than_is_held_ends_the_run() {
    let mut repo = ClientRepo::new();
    let mut processor = Processor::new();
    let mut marked = deposit(1, 1, money(50000));
    marked.disputed = true;
    assert_eq!(processor.handle_transaction(&mut repo, marked), Ok(()));
    assert_eq!(processor.handle_transaction(&mut repo, resolve(1, 1)), Err(Error::InsufficientHeld));
    assert_eq!(
        processor.handle_transaction(&mut repo, chargeback(1, 1)),
        Err(Error::InsufficientHeld)
    );
    assert_eq!(balances(&repo, 1), (money(50000), money(0), money(50000), false));
    let mut again = ClientRepo::new();
    let outcomes = Processor::handle_transactions(
        vec![Some(marked), Some(resolve(1, 1)), Some(deposit(1, 2, money(1)))],
        &mut again,
    );
    assert_eq!(outcomes, vec![Ok(()), Err(Error::InsufficientHeld)]);
    assert_eq!(balances(&again, 1), (money(50000), money(0), money(50000), false));
}

#[test]
fn faults_are_fatal_and_nothing_else_is() {
    for e in [Error::InsufficientHeld, Error::DepositWithoutAmount, Error::Overflow] {
        assert!(e.is_fatal());
    }
    for e in [
        Error::MalformedRow,
        Error::InvalidAmount,
        Error::MissingAmount,
        Error::UnexpectedAmount,
        Error::DuplicateTransaction,
        Error::AccountLocked,
        Error::InsufficientFunds,
        Error::UnknownTransaction,
        Error::ClientMismatch,
        Error::IncompatibleDisputeState,
        Error::NotDisputable,
    ] {
        assert!(!e.is_fatal());
    }
}

#[test]
fn empty_feed_changes_nothing() {
    let mut repo = ClientRepo::new();
    assert!(Processor::handle_transactions(vec![], &mut repo).is_empty());
    assert!(repo.clients.is_empty());
}

#[test]
fn each_run_starts_with_an_empty_ledger() {
    let mut repo = ClientRepo::new();
    assert_eq!(
        Processor::handle_transactions(vec![Some(deposit(1, 1, money(10000)))], &mut repo),
        vec![Ok(())]
    );
    assert_eq!(
        Processor::handle_transactions(
            vec![Some(dispute(1, 1)), Some(deposit(1, 1, money(10000)))],
            &mut repo
        ),
        vec![Err(Error::UnknownTransaction), Ok(())]
    );
    assert_eq!(balances(&repo, 1), (money(20000), money(0), money(20000), false));
}

#[test]
fn clients_are_kept_apart() {
    let mut repo = ClientRepo::new();
    let outcomes = Processor::handle_transactions(
        vec![
            Some(deposit(1, 1, money(10000))),
            Some(deposit(2, 2, money(30000))),
            Some(deposit(1, 3, money(15000))),
            Some(withdrawal(1, 4, money(15000))),
            Some(withdrawal(2, 5, money(35000))),
        ],
        &mut repo,
    );
    assert_eq!(
        outcomes,
        vec![Ok(()), Ok(()), Ok(()), Ok(()), Err(Error::InsufficientFunds)]
    );
    assert_eq!(balances(&repo, 1), (money(10000), money(0), money(10000), false));
    assert_eq!(balances(&repo, 2), (money(30000), money(0), money(30000), false));
}

#[test]
fn default_processor_has_an_empty_ledger() {
    let mut repo = ClientRepo::new();
    let mut processor = Processor::default();
    assert_eq!(processor.handle_transaction(&mut repo, dispute(1, 1)), Err(Error::UnknownTransaction));
    assert_eq!(processor.handle_transaction(&mut repo, deposit(1, 1, money(1))), Ok(()));
    assert_eq!(
        processor.handle_transaction(&mut repo, deposit(1, 1, money(1))),
        Err(Error::DuplicateTransaction)
    );
}

#[test]
fn accounts_of_another_repo_do_not_cover_the_ledger() {
    let mut repo = ClientRepo::new();
    let mut other = ClientRepo::new();
    let mut processor = Processor::new();
    assert_eq!(processor.handle_transaction(&mut repo, deposit(1, 1, money(50000))), Ok(()));
    assert_eq!(processor.handle_transaction(&mut repo, dispute(1, 1)), Ok(()));
    assert_eq!(
        processor.handle_transaction(&mut other, chargeback(1, 1)),
        Err(Error::InsufficientHeld)
    );
    assert_eq!(balances(&other, 1), (money(0), money(0), money(0), false));
    assert_eq!(balances(&repo, 1), (money(0), money(50000), money(50000), false));
}

#[test]
fn dispute_beyond_the_range_of_money_ends_the_run() {
    let largest = Amount::from_parts(MAX_MANTISSA, 4).unwrap();
    let lowest = Amount::from_parts(-MAX_MANTISSA, 4).unwrap();
    let mut repo = ClientRepo::new();
    let outcomes = Processor::handle_transactions(
        vec![
            Some(deposit(1, 1, largest)),
            Some(withdrawal(1, 2, largest)),
            Some(deposit(1, 3, largest)),
            Some(withdrawal(1, 4, largest)),
            Some(dispute(1, 1)),
            Some(dispute(1, 3)),
            Some(resolve(1, 1)),
        ],
        &mut repo,
    );
    assert_eq!(
        outcomes,
        vec![Ok(()), Ok(()), Ok(()), Ok(()), Ok(()), Err(Error::Overflow)]
    );
    assert_eq!(balances(&repo, 1), (lowest, largest, money(0), false));
}

#[test]
fn withdrawal_of_a_whole_number_beyond_the_range_of_money_is_not_covered() {
    let whole = Amount::from_parts(MAX_MANTISSA, 0).unwrap();
    let mut repo = ClientRepo::new();
    let outcomes = Processor::handle_transactions(
        vec![Some(deposit(1, 1, money(10000))), Some(withdrawal(1, 2, whole))],
        &mut repo,
    );
    assert_eq!(outcomes, vec![Ok(()), Err(Error::InsufficientFunds)]);
    assert_eq!(balances(&repo, 1), (money(10000), money(0), money(10000), false));
}
