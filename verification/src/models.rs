//! The data of the engine: transactions and client accounts.
pub mod accounts;
pub mod client;
pub mod transaction;
