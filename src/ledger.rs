//! The ledger: the single owner of the accounts and of the history of
//! deposits, which applies each transaction record in turn.

use std::collections::HashMap;

use vstd::prelude::*;

use crate::account::{Account, Accounts, ClientId};
use crate::transaction::{RawTransaction, Transaction, TransactionId, TransactionType};

verus! {

/// The state of a ledger: the accounts by client, and the deposits that can
/// be disputed, by transaction id.
pub struct LedgerView {
    pub accounts: Map<ClientId, Account>,
    pub history: Map<TransactionId, Transaction>,
}

impl LedgerView {
    /// A record that is not a deposit, for a client without an account, is
    /// dropped.
    pub open spec fn gated(self, tx: RawTransaction) -> bool {
        tx.tx_type != TransactionType::Deposit && !self.accounts.contains_key(tx.client)
    }

    /// The account of a client, or an empty one where there is none yet.
    pub open spec fn account_for(self, client: ClientId) -> Account {
        if self.accounts.contains_key(client) {
            self.accounts[client]
        } else {
            Account::fresh(client)
        }
    }

    /// The state with the client's account replaced.
    pub open spec fn with_account(self, account: Account) -> LedgerView {
        LedgerView { accounts: self.accounts.insert(account.client, account), history: self.history }
    }

    /// The state after one transaction record.
    pub open spec fn step(self, tx: RawTransaction) -> LedgerView {
        if self.gated(tx) {
            self
        } else {
            let acct = self.account_for(tx.client);
            let known = self.history.contains_key(tx.id);
            let rec = self.history[tx.id];
            match tx.tx_type {
                TransactionType::Deposit => LedgerView {
                    accounts: self.accounts.insert(tx.client, acct.deposited(tx.amount)),
                    history: if known {
                        self.history
                    } else {
                        self.history.insert(tx.id, Transaction { raw: tx, disputed: false })
                    },
                },
                TransactionType::Withdrawal => self.with_account(acct.withdrawn(tx.amount)),
                TransactionType::Dispute => if known && rec.raw.amount@ <= acct.available@ {
                    LedgerView {
                        accounts: self.accounts.insert(tx.client, acct.held_back(rec.raw.amount)),
                        history: self.history.insert(tx.id, Transaction { raw: rec.raw, disputed: true }),
                    }
                } else {
                    self
                },
                TransactionType::Resolve => if known && rec.disputed && rec.raw.amount@ <= acct.held@ {
                    LedgerView {
                        accounts: self.accounts.insert(tx.client, acct.released(rec.raw.amount)),
                        history: self.history.insert(tx.id, Transaction { raw: rec.raw, disputed: false }),
                    }
                } else {
                    self
                },
                TransactionType::Chargeback => if known && rec.disputed {
                    self.with_account(acct.charged_back(rec.raw.amount))
                } else {
                    self
                },
            }
        }
    }

    /// Applying the record keeps every balance in the range of amounts.
    pub open spec fn fits(self, tx: RawTransaction) -> bool {
        if self.gated(tx) {
            true
        } else {
            let acct = self.account_for(tx.client);
            let known = self.history.contains_key(tx.id);
            let rec = self.history[tx.id];
            match tx.tx_type {
                TransactionType::Deposit => acct.can_deposit(tx.amount),
                TransactionType::Withdrawal => acct.can_withdraw(tx.amount),
                TransactionType::Dispute => known ==> acct.can_hold(rec.raw.amount),
                TransactionType::Resolve => known && rec.disputed ==> acct.can_release(rec.raw.amount),
                TransactionType::Chargeback => known && rec.disputed ==> acct.can_charge_back(
                    rec.raw.amount,
                ),
            }
        }
    }
}

/// The ledger: accounts, and the deposits that can later be disputed.
#[derive(Debug)]
pub struct Ledger {
    pub accounts: Accounts,
    pub transactions: HashMap<TransactionId, Transaction>,
}

impl View for Ledger {
    type V = LedgerView;

    open spec fn view(&self) -> LedgerView {
        LedgerView { accounts: self.accounts@, history: self.transactions@ }
    }
}

impl Ledger {
    /// Each account is stored under its own client, and the history keeps
    /// deposits only, each under its own id.
    pub open spec fn wf(&self) -> bool {
        &&& self.accounts.wf()
        &&& forall|id: TransactionId| #[trigger]
            self@.history.contains_key(id) ==> self@.history[id].raw.id == id
                && self@.history[id].raw.tx_type == TransactionType::Deposit
    }

    /// A ledger with no accounts and no history.
    pub fn new() -> (r: Ledger)
        ensures
            r.wf(),
            r@.accounts == Map::<ClientId, Account>::empty(),
            r@.history == Map::<TransactionId, Transaction>::empty(),
    {
        Ledger { accounts: Accounts::new(), transactions: HashMap::new() }
    }

    /// Whether [`Ledger::process`] can apply the record with every balance
    /// staying in the range of amounts.
    pub fn fits(&self, tx: &RawTransaction) -> (r: bool)
        requires
            self.wf(),
        ensures
            r == self@.fits(*tx),
    {
        broadcast use vstd::std_specs::hash::group_hash_axioms;

        if tx.tx_type != TransactionType::Deposit && !self.accounts.contains(tx.client) {
            return true;
        }
        let acct = match self.accounts.get(tx.client) {
            Some(a) => a,
            None => Account::new(tx.client),
        };
        match tx.tx_type {
            TransactionType::Deposit => acct.available.checked_add(tx.amount).is_some(),
            TransactionType::Withdrawal => {
                !tx.amount.le(acct.available) || acct.available.checked_sub(tx.amount).is_some()
            },
            _ => {
                let rec = match self.transactions.get(&tx.id) {
                    Some(rec) => *rec,
                    None => {
                        return true;
                    },
                };
                let amount = rec.raw.amount;
                match tx.tx_type {
                    TransactionType::Dispute => !amount.le(acct.available) || (
                    acct.available.checked_sub(amount).is_some() && acct.held.checked_add(
                        amount,
                    ).is_some()),
                    TransactionType::Resolve => !rec.disputed || !amount.le(acct.held) || (
                    acct.available.checked_add(amount).is_some() && acct.held.checked_sub(
                        amount,
                    ).is_some()),
                    _ => !rec.disputed || acct.held.checked_sub(amount).is_some(),
                }
            },
        }
    }

    /// Applies one transaction record.
    ///
    /// A record that is not a deposit, for a client without an account, is
    /// dropped. A deposit creates the client's account if needed, adds to
    /// its available funds, and is kept in the history unless its id is
    /// already there. A withdrawal takes funds if that much is available. A
    /// dispute of a kept deposit holds the deposit's amount, if that much is
    /// available, and marks the deposit disputed. A resolve of a disputed
    /// deposit releases its amount, if that much is held, and clears the
    /// mark. A chargeback of a disputed deposit removes its amount from the
    /// held funds and locks the account. Anything else is ignored.
    pub fn process(&mut self, tx: RawTransaction)
        requires
            old(self).wf(),
            old(self)@.fits(tx),
        ensures
            final(self).wf(),
            final(self)@ == old(self)@.step(tx),
    {
        broadcast use vstd::std_specs::hash::group_hash_axioms;

        if tx.tx_type != TransactionType::Deposit && !self.accounts.contains(tx.client) {
            return;
        }
        let mut account = self.accounts.get_or_create(tx.client);
        match tx.tx_type {
            TransactionType::Deposit => {
                if !self.transactions.contains_key(&tx.id) {
                    self.transactions.insert(tx.id, Transaction::from(tx));
                }
                account.deposit(tx.amount);
                self.accounts.put(account);
                assert(self@.accounts =~= old(self)@.accounts.insert(
                    tx.client,
                    old(self)@.account_for(tx.client).deposited(tx.amount),
                ));
            },
            TransactionType::Withdrawal => {
                account.withdraw(tx.amount);
                self.accounts.put(account);
            },
            TransactionType::Dispute => {
                if let Some(rec) = self.transactions.get(&tx.id) {
                    let rec = *rec;
                    if rec.raw.amount.le(account.available) {
                        account.hold(rec.raw.amount);
                        self.accounts.put(account);
                        self.transactions.insert(tx.id, Transaction { raw: rec.raw, disputed: true });
                    }
                }
            },
            TransactionType::Resolve => {
                if let Some(rec) = self.transactions.get(&tx.id) {
                    let rec = *rec;
                    if rec.disputed && rec.raw.amount.le(account.held) {
                        account.release(rec.raw.amount);
                        self.accounts.put(account);
                        self.transactions.insert(tx.id, Transaction { raw: rec.raw, disputed: false });
                    }
                }
            },
            TransactionType::Chargeback => {
                if let Some(rec) = self.transactions.get(&tx.id) {
                    let rec = *rec;
                    if rec.disputed {
                        account.chargeback(rec.raw.amount);
                        self.accounts.put(account);
                    }
                }
            },
        }
    }

    /// Ends the ledger and hands over its accounts.
    pub fn close(self) -> (r: Accounts)
        requires
            self.wf(),
        ensures
            r.wf(),
            r@ == self@.accounts,
    {
        self.accounts
    }
}

} // verus!
