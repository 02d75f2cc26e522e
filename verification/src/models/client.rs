//! Client accounts and the five operations on them.
use crate::amount::{in_range, lemma_money_fits, Amount, MONEY_SCALE};
use crate::decimal::{decimal_add, decimal_lt, decimal_sub, larger_scale};
use crate::error::Error;
use vstd::prelude::*;

verus! {

/// An account as the contracts see it: its balances as integers, in units of `10^-28`.
pub struct AccountView {
    pub client: u16,
    pub available: int,
    pub held: int,
    pub total: int,
    pub locked: bool,
}

impl AccountView {
    /// A fresh account: nothing in it, not locked.
    pub open spec fn new(id: u16) -> AccountView {
        AccountView { client: id, available: 0, held: 0, total: 0, locked: false }
    }

    /// The total is what is available and what is held together.
    pub open spec fn balanced(self) -> bool {
        self.total == self.available + self.held
    }

    /// Every balance is in the range of money.
    pub open spec fn in_range(self) -> bool {
        in_range(self.available) && in_range(self.held) && in_range(self.total)
    }

    /// Whether `amount` can be deposited: it has at most four fractional digits and the
    /// balances stay in range.
    pub open spec fn can_deposit(self, amount: Amount) -> bool {
        amount.scale() <= MONEY_SCALE && self.deposit(amount@).in_range()
    }

    /// Whether the balances allow a withdrawal of `amount` to be tried: it has at most
    /// four fractional digits and, if it is covered, the balances stay in range.
    pub open spec fn can_withdraw(self, amount: Amount) -> bool {
        amount.scale() <= MONEY_SCALE && (amount@ <= self.available ==> self.withdraw(
            amount@,
        ).in_range())
    }

    /// Whether `amount` can be put under dispute: it has at most four fractional digits
    /// and the balances stay in range.
    pub open spec fn can_dispute(self, amount: Amount) -> bool {
        amount.scale() <= MONEY_SCALE && self.dispute(amount@).in_range()
    }

    /// Whether a dispute over `amount` can be resolved: it has at most four fractional
    /// digits, no more than is held, and the balances stay in range.
    pub open spec fn can_resolve(self, amount: Amount) -> bool {
        amount.scale() <= MONEY_SCALE && amount@ <= self.held && self.resolve(
            amount@,
        ).in_range()
    }

    /// Whether `amount` can be charged back: it has at most four fractional digits, no
    /// more than is held, and the balances stay in range.
    pub open spec fn can_chargeback(self, amount: Amount) -> bool {
        amount.scale() <= MONEY_SCALE && amount@ <= self.held && self.chargeback(
            amount@,
        ).in_range()
    }

    /// The account after `amount` is added to it.
    pub open spec fn deposit(self, amount: int) -> AccountView {
        AccountView {
            available: self.available + amount,
            total: self.total + amount,
            ..self
        }
    }

    /// The account after `amount` is taken out of it.
    pub open spec fn withdraw(self, amount: int) -> AccountView {
        AccountView {
            available: self.available - amount,
            total: self.total - amount,
            ..self
        }
    }

    /// The account after `amount` is moved from available to held.
    pub open spec fn dispute(self, amount: int) -> AccountView {
        AccountView { available: self.available - amount, held: self.held + amount, ..self }
    }

    /// The account after `amount` is moved back from held to available.
    pub open spec fn resolve(self, amount: int) -> AccountView {
        AccountView { available: self.available + amount, held: self.held - amount, ..self }
    }

    /// The account after `amount` that was held is given back to its sender: it leaves
    /// the account, and the account is locked.
    pub open spec fn chargeback(self, amount: int) -> AccountView {
        AccountView {
            held: self.held - amount,
            total: self.total - amount,
            locked: true,
            ..self
        }
    }
}

/// Holds all account details for a client, including funds, allocation, id, and status
/// (locked). The operations are meant for the amounts of validated transactions, which
/// have at most four fractional digits.
#[derive(Clone, Copy, Debug)]
pub struct Client {
    pub client: u16,
    available: Amount,
    held: Amount,
    total: Amount,
    pub locked: bool,
}

impl View for Client {
    type V = AccountView;

    open spec fn view(&self) -> AccountView {
        AccountView {
            client: self.id(),
            available: self.available()@,
            held: self.held()@,
            total: self.total()@,
            locked: self.is_locked(),
        }
    }
}

impl Default for Client {
    /// A fresh account for the client 0.
    fn default() -> (c: Self)
        ensures
            c@ == AccountView::new(0),
            c.wf(),
    {
        Client::new(0)
    }
}

impl Client {
    pub closed spec fn spec_id(&self) -> u16 {
        self.client
    }

    pub closed spec fn spec_is_locked(&self) -> bool {
        self.locked
    }

    pub closed spec fn spec_available(&self) -> Amount {
        self.available
    }

    pub closed spec fn spec_held(&self) -> Amount {
        self.held
    }

    pub closed spec fn spec_total(&self) -> Amount {
        self.total
    }

    /// The account is well formed: each balance has at most four fractional digits and is
    /// in range, and the total is what is available and what is held together.
    pub open spec fn wf(&self) -> bool {
        &&& self.available().scale() <= MONEY_SCALE
        &&& self.held().scale() <= MONEY_SCALE
        &&& self.total().scale() <= MONEY_SCALE
        &&& self@.in_range()
        &&& self@.balanced()
    }

    /// The client that the account belongs to.
    #[verifier::when_used_as_spec(spec_id)]
    pub fn id(&self) -> (id: u16)
        ensures
            id == self.id(),
    {
        self.client
    }

    /// Whether the account is locked.
    #[verifier::when_used_as_spec(spec_is_locked)]
    pub fn is_locked(&self) -> (locked: bool)
        ensures
            locked == self.is_locked(),
    {
        self.locked
    }

    /// The funds that the client can use.
    #[verifier::when_used_as_spec(spec_available)]
    pub fn available(&self) -> (a: Amount)
        ensures
            a == self.available(),
    {
        self.available
    }

    /// The funds that are held back while a dispute is open.
    #[verifier::when_used_as_spec(spec_held)]
    pub fn held(&self) -> (a: Amount)
        ensures
            a == self.held(),
    {
        self.held
    }

    /// All the funds of the client.
    #[verifier::when_used_as_spec(spec_total)]
    pub fn total(&self) -> (a: Amount)
        ensures
            a == self.total(),
    {
        self.total
    }

    /// A fresh account for the client `id`.
    pub fn new(id: u16) -> (c: Client)
        ensures
            c@ == AccountView::new(id),
            c.wf(),
    {
        proof {
            crate::amount::lemma_pow10_positive(24);
        }
        Self {
            client: id,
            available: Amount::zero(),
            held: Amount::zero(),
            total: Amount::zero(),
            locked: false,
        }
    }

    /// Decides whether [`Client::deposit`] may be called with `amount`.
    pub fn can_deposit(&self, amount: Amount) -> (ok: bool)
        requires
            self.wf(),
        ensures
            ok == self@.can_deposit(amount),
    {
        self.total.can_add(amount) && self.available.can_add(amount)
    }

    /// Decides whether [`Client::withdraw`] may be called with `amount`.
    pub fn can_withdraw(&self, amount: Amount) -> (ok: bool)
        requires
            self.wf(),
        ensures
            ok == self@.can_withdraw(amount),
    {
        if amount.scale() > MONEY_SCALE {
            false
        } else if decimal_lt(self.available, amount) {
            true
        } else {
            self.total.can_sub(amount) && self.available.can_sub(amount)
        }
    }

    /// Decides whether [`Client::dispute`] may be called with `amount`.
    pub fn can_dispute(&self, amount: Amount) -> (ok: bool)
        requires
            self.wf(),
        ensures
            ok == self@.can_dispute(amount),
    {
        self.available.can_sub(amount) && self.held.can_add(amount)
    }

    /// Decides whether [`Client::resolve`] may be called with `amount`.
    pub fn can_resolve(&self, amount: Amount) -> (ok: bool)
        requires
            self.wf(),
        ensures
            ok == self@.can_resolve(amount),
    {
        !decimal_lt(self.held, amount) && self.available.can_add(amount) && self.held.can_sub(
            amount,
        )
    }

    /// Decides whether [`Client::chargeback`] may be called with `amount`.
    pub fn can_chargeback(&self, amount: Amount) -> (ok: bool)
        requires
            self.wf(),
        ensures
            ok == self@.can_chargeback(amount),
    {
        !decimal_lt(self.held, amount) && self.total.can_sub(amount) && self.held.can_sub(
            amount,
        )
    }

    /// Add money to the account. The amount must be one that
    /// [`Client::can_deposit`] accepts.
    pub fn deposit(&mut self, amount: Amount)
        requires
            old(self).wf(),
            old(self)@.can_deposit(amount),
        ensures
            final(self)@ == old(self)@.deposit(amount@),
            final(self).wf(),
    {
        proof {
            lemma_money_fits(self.total@ + amount@, larger_scale(self.total, amount));
            lemma_money_fits(self.available@ + amount@, larger_scale(self.available, amount));
        }
        self.total = decimal_add(self.total, amount);
        self.available = decimal_add(self.available, amount);
    }

    /// Withdraw money from the account if there are sufficient funds. The amount must
    /// be one that [`Client::can_withdraw`] accepts.
    pub fn withdraw(&mut self, amount: Amount) -> (r: Result<(), Error>)
        requires
            old(self).wf(),
            old(self)@.can_withdraw(amount),
        ensures
            final(self).wf(),
            amount@ <= old(self)@.available ==> r is Ok && final(self)@ == old(self)@.withdraw(
                amount@,
            ),
            amount@ > old(self)@.available ==> r == Err::<(), Error>(Error::InsufficientFunds)
                && final(self)@ == old(self)@,
    {
        if !decimal_lt(self.available, amount) {
            proof {
                lemma_money_fits(self.total@ - amount@, larger_scale(self.total, amount));
                lemma_money_fits(
                    self.available@ - amount@,
                    larger_scale(self.available, amount),
                );
            }
            self.total = decimal_sub(self.total, amount);
            self.available = decimal_sub(self.available, amount);
            Ok(())
        } else {
            Err(Error::InsufficientFunds)
        }
    }

    /// Hold disputed funds removing them from the available balance, which may fall
    /// below zero. The amount must be one that [`Client::can_dispute`] accepts.
    pub fn dispute(&mut self, amount: Amount)
        requires
            old(self).wf(),
            old(self)@.can_dispute(amount),
        ensures
            final(self)@ == old(self)@.dispute(amount@),
            final(self).wf(),
    {
        proof {
            lemma_money_fits(
                self.available@ - amount@,
                larger_scale(self.available, amount),
            );
            lemma_money_fits(self.held@ + amount@, larger_scale(self.held, amount));
        }
        self.available = decimal_sub(self.available, amount);
        self.held = decimal_add(self.held, amount);
    }

    /// Resolve a dispute, releasing the funds from held to available. No more can be
    /// released than is held: the amount must be one that [`Client::can_resolve`]
    /// accepts.
    pub fn resolve(&mut self, amount: Amount)
        requires
            old(self).wf(),
            old(self)@.can_resolve(amount),
        ensures
            final(self)@ == old(self)@.resolve(amount@),
            final(self).wf(),
    {
        proof {
            lemma_money_fits(
                self.available@ + amount@,
                larger_scale(self.available, amount),
            );
            lemma_money_fits(self.held@ - amount@, larger_scale(self.held, amount));
        }
        self.available = decimal_add(self.available, amount);
        self.held = decimal_sub(self.held, amount);
    }

    /// Charge back a dispute, release funds from held and discharging them (subtract from
    /// total), and lock the account. No more can be charged back than is held: the
    /// amount must be one that [`Client::can_chargeback`] accepts.
    pub fn chargeback(&mut self, amount: Amount)
        requires
            old(self).wf(),
            old(self)@.can_chargeback(amount),
        ensures
            final(self)@ == old(self)@.chargeback(amount@),
            final(self).wf(),
    {
        proof {
            lemma_money_fits(self.total@ - amount@, larger_scale(self.total, amount));
            lemma_money_fits(self.held@ - amount@, larger_scale(self.held, amount));
        }
        self.total = decimal_sub(self.total, amount);
        self.held = decimal_sub(self.held, amount);
        self.locked = true;
    }
}

} // verus!
