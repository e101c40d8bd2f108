//! Transaction records as they arrive, and as the history keeps them.

use vstd::prelude::*;

use crate::amount::{deserialize_amount, parsed_bits, Amount};
use crate::account::ClientId;

verus! {

/// Transaction identifier.
pub type TransactionId = u16;

/// The five kinds of transaction record.
#[derive(Debug, Clone, Copy, PartialEq, Eq, Structural)]
pub enum TransactionType {
    Deposit,
    Withdrawal,
    Dispute,
    Resolve,
    Chargeback,
}

/// The kind that a type name denotes; names are matched exactly, case
/// included.
pub open spec fn kind_named(name: Seq<char>) -> Option<TransactionType> {
    if name == "deposit"@ {
        Some(TransactionType::Deposit)
    } else if name == "withdrawal"@ {
        Some(TransactionType::Withdrawal)
    } else if name == "dispute"@ {
        Some(TransactionType::Dispute)
    } else if name == "resolve"@ {
        Some(TransactionType::Resolve)
    } else if name == "chargeback"@ {
        Some(TransactionType::Chargeback)
    } else {
        None
    }
}

impl TransactionType {
    /// Reads a type name: `deposit`, `withdrawal`, `dispute`, `resolve` or
    /// `chargeback`; `None` for any other text.
    pub fn parse(s: &str) -> (r: Option<TransactionType>)
        ensures
            r == kind_named(s@),
    {
        let name = s.to_owned();
        proof {
            reveal_strlit("deposit");
            reveal_strlit("withdrawal");
            reveal_strlit("dispute");
            reveal_strlit("resolve");
            reveal_strlit("chargeback");
        }
        if name == "deposit".to_owned() {
            Some(TransactionType::Deposit)
        } else if name == "withdrawal".to_owned() {
            Some(TransactionType::Withdrawal)
        } else if name == "dispute".to_owned() {
            Some(TransactionType::Dispute)
        } else if name == "resolve".to_owned() {
            Some(TransactionType::Resolve)
        } else if name == "chargeback".to_owned() {
            Some(TransactionType::Chargeback)
        } else {
            None
        }
    }
}

/// A transaction record as submitted.
#[derive(Debug, Clone, Copy, PartialEq, Eq, Structural)]
pub struct RawTransaction {
    pub tx_type: TransactionType,
    pub client: ClientId,
    pub id: TransactionId,
    pub amount: Amount,
}

impl RawTransaction {
    /// Builds a record from its text fields. The type name must be one of
    /// the five kinds. Deposits and withdrawals need an amount that parses;
    /// for the other kinds the amount is not used: it is read where it
    /// parses and is zero otherwise.
    pub fn from_fields(kind: &str, client: ClientId, id: TransactionId, amount: Option<&str>) -> (r:
        Option<RawTransaction>)
        ensures
            kind_named(kind@) is None ==> r is None,
            kind_named(kind@) matches Some(t) ==> {
                let parsed = match amount {
                    Some(a) => parsed_bits(a@),
                    None => None::<i128>,
                };
                if t == TransactionType::Deposit || t == TransactionType::Withdrawal {
                    &&& r is Some <==> parsed is Some
                    &&& r matches Some(rec) ==> rec == (RawTransaction {
                        tx_type: t,
                        client,
                        id,
                        amount: Amount { bits: parsed->Some_0 },
                    })
                } else {
                    r == Some(
                        RawTransaction {
                            tx_type: t,
                            client,
                            id,
                            amount: Amount {
                                bits: match parsed {
                                    Some(b) => b,
                                    None => 0i128,
                                },
                            },
                        },
                    )
                }
            },
    {
        let tx_type = match TransactionType::parse(kind) {
            Some(t) => t,
            None => {
                return None;
            },
        };
        let parsed = match amount {
            Some(a) => deserialize_amount(a),
            None => None,
        };
        match parsed {
            Some(value) => Some(RawTransaction { tx_type, client, id, amount: value }),
            None => match tx_type {
                TransactionType::Deposit | TransactionType::Withdrawal => None,
                _ => Some(RawTransaction { tx_type, client, id, amount: Amount::zero() }),
            },
        }
    }
}

/// A transaction kept in the history, with whether it is under dispute.
#[derive(Debug, Clone, Copy, PartialEq, Eq, Structural)]
pub struct Transaction {
    pub raw: RawTransaction,
    pub disputed: bool,
}

impl From<RawTransaction> for Transaction {
    /// A record that is not under dispute.
    fn from(raw: RawTransaction) -> (r: Transaction) {
        Transaction { raw, disputed: false }
    }
}

impl vstd::std_specs::convert::FromSpecImpl<RawTransaction> for Transaction {
    open spec fn obeys_from_spec() -> bool {
        true
    }

    open spec fn from_spec(raw: RawTransaction) -> Transaction {
        Transaction { raw, disputed: false }
    }
}

} // verus!
