//! The accounts of all clients, under the name that the models give them.
use crate::client_repo::ClientRepo;
use vstd::prelude::*;

verus! {

/// The accounts of all clients: another name for [`ClientRepo`].
pub type Accounts = ClientRepo;

} // verus!
