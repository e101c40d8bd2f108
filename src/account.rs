//! Client accounts and the store that holds them.

use std::collections::HashMap;

use vstd::prelude::*;

use crate::amount::{in_bits_range, Amount};

verus! {

/// Client identifier.
pub type ClientId = u16;

/// The funds of one client.
#[derive(Debug, Clone, Copy, PartialEq, Eq, Structural)]
pub struct Account {
    pub client: ClientId,
    pub available: Amount,
    pub held: Amount,
    pub locked: bool,
}

impl Account {
    /// An empty, unlocked account.
    pub open spec fn fresh(client: ClientId) -> Account {
        Account { client, available: Amount { bits: 0 }, held: Amount { bits: 0 }, locked: false }
    }

    /// Available plus held funds.
    pub open spec fn total_spec(self) -> int {
        self.available@ + self.held@
    }

    /// Both balances are non-negative.
    pub open spec fn balances_non_negative(self) -> bool {
        self.available@ >= 0 && self.held@ >= 0
    }

    /// The account after a deposit.
    pub open spec fn deposited(self, amount: Amount) -> Account {
        Account {
            client: self.client,
            available: Amount { bits: (self.available@ + amount@) as i128 },
            held: self.held,
            locked: self.locked,
        }
    }

    /// The account after a withdrawal: unchanged when funds are short.
    pub open spec fn withdrawn(self, amount: Amount) -> Account {
        if amount@ <= self.available@ {
            Account {
                client: self.client,
                available: Amount { bits: (self.available@ - amount@) as i128 },
                held: self.held,
                locked: self.locked,
            }
        } else {
            self
        }
    }

    /// The account after holding funds: unchanged when funds are short.
    pub open spec fn held_back(self, amount: Amount) -> Account {
        if amount@ <= self.available@ {
            Account {
                client: self.client,
                available: Amount { bits: (self.available@ - amount@) as i128 },
                held: Amount { bits: (self.held@ + amount@) as i128 },
                locked: self.locked,
            }
        } else {
            self
        }
    }

    /// The account after releasing held funds: unchanged when less is held.
    pub open spec fn released(self, amount: Amount) -> Account {
        if amount@ <= self.held@ {
            Account {
                client: self.client,
                available: Amount { bits: (self.available@ + amount@) as i128 },
                held: Amount { bits: (self.held@ - amount@) as i128 },
                locked: self.locked,
            }
        } else {
            self
        }
    }

    /// The account after a chargeback: the held funds go down by the amount,
    /// whatever they were, and the account is locked.
    pub open spec fn charged_back(self, amount: Amount) -> Account {
        Account {
            client: self.client,
            available: self.available,
            held: Amount { bits: (self.held@ - amount@) as i128 },
            locked: true,
        }
    }

    /// A deposit keeps the balances in range.
    pub open spec fn can_deposit(self, amount: Amount) -> bool {
        in_bits_range(self.available@ + amount@)
    }

    /// A withdrawal keeps the balances in range.
    pub open spec fn can_withdraw(self, amount: Amount) -> bool {
        amount@ <= self.available@ ==> in_bits_range(self.available@ - amount@)
    }

    /// A hold keeps the balances in range.
    pub open spec fn can_hold(self, amount: Amount) -> bool {
        amount@ <= self.available@ ==> in_bits_range(self.available@ - amount@)
            && in_bits_range(self.held@ + amount@)
    }

    /// A release keeps the balances in range.
    pub open spec fn can_release(self, amount: Amount) -> bool {
        amount@ <= self.held@ ==> in_bits_range(self.available@ + amount@)
            && in_bits_range(self.held@ - amount@)
    }

    /// A chargeback keeps the balances in range.
    pub open spec fn can_charge_back(self, amount: Amount) -> bool {
        in_bits_range(self.held@ - amount@)
    }

    /// Creates an empty, unlocked account for a client.
    pub fn new(client: ClientId) -> (r: Account)
        ensures
            r == Account::fresh(client),
    {
        Account { client, available: Amount::zero(), held: Amount::zero(), locked: false }
    }

    /// Adds the amount to the available funds.
    pub fn deposit(&mut self, amount: Amount)
        requires
            old(self).can_deposit(amount),
        ensures
            *final(self) == old(self).deposited(amount),
            final(self).available@ == old(self).available@ + amount@,
    {
        self.available = self.available.add(amount);
    }

    /// Takes the amount from the available funds, if that much is available;
    /// otherwise does nothing.
    pub fn withdraw(&mut self, amount: Amount)
        requires
            old(self).can_withdraw(amount),
        ensures
            *final(self) == old(self).withdrawn(amount),
    {
        if !amount.le(self.available) {
            return;
        }
        self.available = self.available.sub(amount);
    }

    /// Moves the amount from available to held funds, if that much is
    /// available; otherwise does nothing.
    pub fn hold(&mut self, amount: Amount)
        requires
            old(self).can_hold(amount),
        ensures
            *final(self) == old(self).held_back(amount),
    {
        if !amount.le(self.available) {
            return;
        }
        self.available = self.available.sub(amount);
        self.held = self.held.add(amount);
    }

    /// Moves the amount from held back to available funds, if that much is
    /// held; otherwise does nothing.
    pub fn release(&mut self, amount: Amount)
        requires
            old(self).can_release(amount),
        ensures
            *final(self) == old(self).released(amount),
    {
        if !amount.le(self.held) {
            return;
        }
        self.available = self.available.add(amount);
        self.held = self.held.sub(amount);
    }

    /// Removes the amount from the held funds and locks the account.
    pub fn chargeback(&mut self, amount: Amount)
        requires
            old(self).can_charge_back(amount),
        ensures
            *final(self) == old(self).charged_back(amount),
    {
        self.held = self.held.sub(amount);
        self.locked = true;
    }
}

/// An account as it is reported, with its total.
#[derive(Debug, Clone, Copy, PartialEq, Eq, Structural)]
pub struct RawAccount {
    pub client: ClientId,
    pub available: Amount,
    pub held: Amount,
    pub total: Amount,
    pub locked: bool,
}

impl RawAccount {
    /// The report of an account; `None` where its total leaves the range of
    /// amounts.
    pub fn from_account(a: Account) -> (r: Option<RawAccount>)
        ensures
            r is None <==> !in_bits_range(a.total_spec()),
            r matches Some(raw) ==> raw.client == a.client && raw.available == a.available
                && raw.held == a.held && raw.total@ == a.total_spec() && raw.locked == a.locked,
    {
        match a.available.checked_add(a.held) {
            Some(total) => Some(
                RawAccount {
                    client: a.client,
                    available: a.available,
                    held: a.held,
                    total,
                    locked: a.locked,
                },
            ),
            None => None,
        }
    }
}

/// The accounts, by client.
#[derive(Debug)]
pub struct Accounts {
    pub data: HashMap<ClientId, Account>,
}

impl View for Accounts {
    type V = Map<ClientId, Account>;

    open spec fn view(&self) -> Map<ClientId, Account> {
        self.data@
    }
}

impl Accounts {
    /// Each account is stored under its own client.
    pub open spec fn wf(&self) -> bool {
        forall|c: ClientId| #[trigger] self@.contains_key(c) ==> self@[c].client == c
    }

    /// Creates an empty store.
    pub fn new() -> (r: Accounts)
        ensures
            r@ == Map::<ClientId, Account>::empty(),
            r.wf(),
    {
        Accounts { data: HashMap::new() }
    }

    /// The account of a client, created empty if there is none yet. The
    /// account is handed back by value; [`Accounts::put`] stores a changed one.
    pub fn get_or_create(&mut self, client: ClientId) -> (r: Account)
        requires
            old(self).wf(),
        ensures
            final(self).wf(),
            old(self)@.contains_key(client) ==> final(self)@ == old(self)@,
            !old(self)@.contains_key(client) ==> final(self)@ == old(self)@.insert(
                client,
                Account::fresh(client),
            ),
            final(self)@.contains_key(client),
            r == final(self)@[client],
    {
        match self.get(client) {
            Some(a) => a,
            None => {
                let a = Account::new(client);
                self.put(a);
                a
            },
        }
    }

    /// Stores an account under its client, in place of any earlier one.
    pub fn put(&mut self, account: Account)
        requires
            old(self).wf(),
        ensures
            final(self).wf(),
            final(self)@ == old(self)@.insert(account.client, account),
    {
        broadcast use vstd::std_specs::hash::group_hash_axioms;

        self.data.insert(account.client, account);
    }

    /// Whether the client has an account.
    pub fn contains(&self, id: ClientId) -> (r: bool)
        ensures
            r == self@.contains_key(id),
    {
        broadcast use vstd::std_specs::hash::group_hash_axioms;

        self.data.contains_key(&id)
    }

    /// The account of a client, if there is one.
    pub fn get(&self, id: ClientId) -> (r: Option<Account>)
        ensures
            r == (if self@.contains_key(id) { Some(self@[id]) } else { None::<Account> }),
    {
        broadcast use vstd::std_specs::hash::group_hash_axioms;

        match self.data.get(&id) {
            Some(a) => Some(*a),
            None => None,
        }
    }
}

} // verus!
