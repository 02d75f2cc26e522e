//! The accounts of all clients.
use crate::error::Error;
use crate::models::client::{AccountView, Client};
use std::collections::HashMap;
use vstd::prelude::*;

verus! {

/// Owns a hash map of clients for time constant lookups, storage, and auditing.
#[derive(Debug)]
pub struct ClientRepo {
    /// Map of all client accounts. Returns the client and their data.
    pub clients: HashMap<u16, Client>,
}

impl View for ClientRepo {
    type V = Map<u16, AccountView>;

    /// The accounts by client, each as the contracts see it.
    open spec fn view(&self) -> Map<u16, AccountView> {
        Map::new(|id: u16| self.clients@.contains_key(id), |id: u16| self.clients@[id]@)
    }
}

/// The account of `id` among `accounts`, or a fresh one where there is none yet.
pub open spec fn account_or_new(accounts: Map<u16, AccountView>, id: u16) -> AccountView {
    if accounts.contains_key(id) {
        accounts[id]
    } else {
        AccountView::new(id)
    }
}

impl Default for ClientRepo {
    /// A repo without clients.
    fn default() -> (repo: Self)
        ensures
            repo@ == Map::<u16, AccountView>::empty(),
            repo.wf(),
    {
        ClientRepo::new()
    }
}

impl ClientRepo {
    /// Every account is well formed and is filed under its own client.
    pub open spec fn wf(&self) -> bool {
        forall|id: u16| #[trigger]
            self.clients@.contains_key(id) ==> self.clients@[id].wf() && self.clients@[id].id()
                == id
    }

    /// Creates a new client repo.
    pub fn new() -> (repo: Self)
        ensures
            repo@ == Map::<u16, AccountView>::empty(),
            repo.wf(),
    {
        let repo = Self { clients: HashMap::new() };
        assert(repo@ =~= Map::<u16, AccountView>::empty());
        repo
    }

    /// Adds a new client if not found, or gets an existing client. If locked, an error is
    /// returned.
    pub fn get_client(&mut self, id: u16) -> (r: Result<&mut Client, Error>)
        requires
            old(self).wf(),
        ensures
            match r {
                Ok(client) => {
                    &&& !account_or_new(old(self)@, id).locked
                    &&& client@ == account_or_new(old(self)@, id)
                    &&& client.wf()
                    &&& final(self).clients@ == old(self).clients@.insert(id, *final(client))
                },
                Err(e) => {
                    &&& e == Error::AccountLocked
                    &&& account_or_new(old(self)@, id).locked
                    &&& final(self)@ == old(self)@
                    &&& final(self).wf()
                },
            },
    {
        let client = self.clients.entry(id).or_insert(Client::new(id));
        if client.is_locked() {
            return Err(Error::AccountLocked);
        } else {
            Ok(client)
        }
    }
}

} // verus!
