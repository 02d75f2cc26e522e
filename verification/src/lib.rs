//! A toy financial transactions engine.
//!
//! The engine takes deposits, withdrawals, disputes, resolves and chargebacks one at a
//! time, in arrival order, and keeps one account per client: the funds available, the
//! funds held against open disputes, their total, and whether the account is locked.
//! Every rule of the engine is stated as a contract and proved.
//!
//! - [`amount`]: decimal amounts as plain values, and the range of money.
//! - [`decimal`]: the calls into `rust_decimal`, whose contracts are taken on trust.
//! - [`error`]: what can go wrong with one transaction.
//! - [`models`]: transactions and their validation, client accounts and their operations.
//! - [`client_repo`]: the accounts of all clients.
//! - [`processor`]: what a transaction, and a feed of them, does to ledger and accounts.
//! - [`guarantees`]: what holds of the accounts whatever the transactions are.
//! - [`faults`]: why a ledger and accounts that the engine kept never disagree.
pub mod amount;
pub mod client_repo;
pub mod decimal;
pub mod error;
pub mod faults;
pub mod guarantees;
pub mod models;
pub mod processor;
