//! Properties of the ledger's transition function, proved over
//! [`LedgerView::step`], which [`crate::ledger::Ledger::process`] follows.

use vstd::prelude::*;

use crate::account::{Account, ClientId};
use crate::ledger::LedgerView;
use crate::transaction::{RawTransaction, Transaction, TransactionId, TransactionType};

verus! {

impl LedgerView {
    /// Every account has non-negative available and held funds.
    pub open spec fn balances_non_negative(self) -> bool {
        forall|c| #[trigger] self.accounts.contains_key(c) ==> self.accounts[c].balances_non_negative()
    }

    /// Every kept deposit has a non-negative amount.
    pub open spec fn deposits_non_negative(self) -> bool {
        forall|id| #[trigger] self.history.contains_key(id) ==> self.history[id].raw.amount@ >= 0
    }

    /// The record is a chargeback that takes more than its account holds.
    pub open spec fn overdraws(self, tx: RawTransaction) -> bool {
        &&& !self.gated(tx)
        &&& tx.tx_type == TransactionType::Chargeback
        &&& self.history.contains_key(tx.id)
        &&& self.history[tx.id].disputed
        &&& self.history[tx.id].raw.amount@ > self.account_for(tx.client).held@
    }
}

/// Balances stay non-negative: where every balance and every kept deposit is
/// non-negative, a record that is not a negative deposit and not a chargeback
/// of more than is held leaves them so.
pub proof fn lemma_balances_stay_non_negative(s: LedgerView, tx: RawTransaction)
    requires
        s.balances_non_negative(),
        s.deposits_non_negative(),
        s.fits(tx),
        tx.tx_type == TransactionType::Deposit ==> tx.amount@ >= 0,
        !s.overdraws(tx),
    ensures
        s.step(tx).balances_non_negative(),
        s.step(tx).deposits_non_negative(),
{
    let t = s.step(tx);
    let acct = s.account_for(tx.client);
    assert(acct.balances_non_negative());
    assert forall|c| #[trigger] t.accounts.contains_key(c) implies t.accounts[c].balances_non_negative() by {
        if c != tx.client && c != acct.client {
            assert(s.accounts.contains_key(c));
        } else if s.accounts.contains_key(c) {
            assert(s.accounts[c].balances_non_negative());
        }
    }
}

/// The ledger with no accounts and no history.
pub open spec fn empty_ledger() -> LedgerView {
    LedgerView {
        accounts: Map::<ClientId, Account>::empty(),
        history: Map::<TransactionId, Transaction>::empty(),
    }
}

/// The state after applying the records in order.
pub open spec fn run(s: LedgerView, txs: Seq<RawTransaction>) -> LedgerView
    decreases txs.len(),
{
    if txs.len() == 0 {
        s
    } else {
        run(s, txs.drop_last()).step(txs.last())
    }
}

/// Every record of the stream fits, is not a negative deposit, and is not a
/// chargeback of more than is held, in the state that it meets.
pub open spec fn sound_stream(txs: Seq<RawTransaction>) -> bool {
    forall|i: int|
        0 <= i < txs.len() ==> {
            let s = #[trigger] run(empty_ledger(), txs.take(i));
            &&& s.fits(txs[i])
            &&& !s.overdraws(txs[i])
            &&& txs[i].tx_type == TransactionType::Deposit ==> txs[i].amount@ >= 0
        }
}

/// Every state that a sound stream reaches from the empty ledger has
/// non-negative balances and kept deposits.
pub proof fn lemma_reachable_balances_non_negative(txs: Seq<RawTransaction>)
    requires
        sound_stream(txs),
    ensures
        run(empty_ledger(), txs).balances_non_negative(),
        run(empty_ledger(), txs).deposits_non_negative(),
    decreases txs.len(),
{
    if txs.len() > 0 {
        let prefix = txs.drop_last();
        assert forall|i: int| 0 <= i < prefix.len() implies {
            let s = #[trigger] run(empty_ledger(), prefix.take(i));
            &&& s.fits(prefix[i])
            &&& !s.overdraws(prefix[i])
            &&& prefix[i].tx_type == TransactionType::Deposit ==> prefix[i].amount@ >= 0
        } by {
            assert(prefix.take(i) =~= txs.take(i));
            let s = run(empty_ledger(), txs.take(i));
            assert(s.fits(txs[i]));
        }
        lemma_reachable_balances_non_negative(prefix);
        let last = txs.len() - 1;
        assert(txs.take(last) =~= prefix);
        let s = run(empty_ledger(), txs.take(last));
        assert(s.fits(txs[last]));
        lemma_balances_stay_non_negative(run(empty_ledger(), prefix), txs.last());
    }
}

/// A deposit adds exactly its amount to the client's available funds, and
/// leaves held funds and the lock as they were, whether or not its id is new.
pub proof fn lemma_deposit_adds_amount(s: LedgerView, tx: RawTransaction)
    requires
        tx.tx_type == TransactionType::Deposit,
        s.fits(tx),
    ensures
        s.step(tx).accounts.contains_key(tx.client),
        s.step(tx).accounts[tx.client].available@ == s.account_for(tx.client).available@
            + tx.amount@,
        s.step(tx).accounts[tx.client].held == s.account_for(tx.client).held,
        s.step(tx).accounts[tx.client].locked == s.account_for(tx.client).locked,
{
}

/// Of two deposits with one id, only the first is kept; a dispute of that id
/// then holds the first deposit's amount.
pub proof fn lemma_first_deposit_wins(
    s: LedgerView,
    first: RawTransaction,
    second: RawTransaction,
    dispute: RawTransaction,
)
    requires
        first.tx_type == TransactionType::Deposit,
        second.tx_type == TransactionType::Deposit,
        dispute.tx_type == TransactionType::Dispute,
        second.id == first.id,
        dispute.id == first.id,
        !s.history.contains_key(first.id),
        s.fits(first),
        s.step(first).fits(second),
        s.step(first).step(second).fits(dispute),
    ensures
        s.step(first).step(second).history[first.id] == (Transaction { raw: first, disputed: false }),
        ({
            let u = s.step(first).step(second);
            let acct = u.account_for(dispute.client);
            !u.gated(dispute) && first.amount@ <= acct.available@ ==> {
                &&& u.step(dispute).accounts[dispute.client].available@ == acct.available@
                    - first.amount@
                &&& u.step(dispute).accounts[dispute.client].held@ == acct.held@ + first.amount@
                &&& u.step(dispute).history[first.id] == (Transaction { raw: first, disputed: true })
            }
        }),
{
}

/// A record that is not a deposit, for a client without an account, changes
/// nothing and creates no account.
pub proof fn lemma_no_account_no_effect(s: LedgerView, tx: RawTransaction)
    requires
        tx.tx_type != TransactionType::Deposit,
        !s.accounts.contains_key(tx.client),
    ensures
        s.step(tx) == s,
        !s.step(tx).accounts.contains_key(tx.client),
{
}

/// A resolve or a chargeback of a deposit that is not under dispute, or that
/// was never kept, changes nothing.
pub proof fn lemma_undisputed_settlement_no_effect(s: LedgerView, tx: RawTransaction)
    requires
        tx.tx_type == TransactionType::Resolve || tx.tx_type == TransactionType::Chargeback,
        !(s.history.contains_key(tx.id) && s.history[tx.id].disputed),
    ensures
        s.step(tx) == s,
{
}

/// A dispute of an id that no deposit was kept under changes nothing.
pub proof fn lemma_unknown_dispute_no_effect(s: LedgerView, tx: RawTransaction)
    requires
        tx.tx_type == TransactionType::Dispute,
        !s.history.contains_key(tx.id),
    ensures
        s.step(tx) == s,
{
}

/// A dispute, first or repeated, whose deposit is larger than the available
/// funds changes nothing: the funds are not held and the mark is not set.
pub proof fn lemma_short_dispute_no_effect(s: LedgerView, tx: RawTransaction)
    requires
        tx.tx_type == TransactionType::Dispute,
        s.history.contains_key(tx.id),
        s.history[tx.id].raw.amount@ > s.account_for(tx.client).available@,
    ensures
        s.step(tx) == s,
{
}

} // verus!
