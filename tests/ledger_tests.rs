use ledger::{
    Accounts, Transaction,
    deserialize_amount, serialize_amount, Account, Amount, Ledger, RawAccount, RawTransaction,
    TransactionType,
};

fn amount(s: &str) -> Amount {
    deserialize_amount(s).expect("valid amount")
}

fn record(tx_type: TransactionType, client: u16, id: u16, value: &str) -> RawTransaction {
    RawTransaction { tx_type, client, id, amount: amount(value) }
}

fn apply(ledger: &mut Ledger, tx: RawTransaction) {
    assert!(ledger.fits(&tx));
    ledger.process(tx);
}

fn text(a: Amount) -> String {
    serialize_amount(&a)
}

fn scenario_a() -> Ledger {
    let mut ledger = Ledger::new();
    apply(&mut ledger, record(TransactionType::Deposit, 1, 1, "1.0"));
    apply(&mut ledger, record(TransactionType::Deposit, 1, 2, "2.0"));
    apply(&mut ledger, record(TransactionType::Withdrawal, 1, 3, "1.5"));
    ledger
}

#[test]
fn scenario_deposits_and_withdrawal() {
    let accounts = scenario_a().close();
    let acc = accounts.get(1).expect("account 1");
    let raw = RawAccount::from_account(acc).expect("total in range");
    assert_eq!(text(raw.available), "1.5000");
    assert_eq!(text(raw.held), "0.0000");
    assert_eq!(text(raw.total), "1.5000");
    assert!(!raw.locked);
}

#[test]
fn scenario_dispute_then_chargeback() {
    let mut ledger = scenario_a();
    apply(&mut ledger, record(TransactionType::Dispute, 1, 1, "0"));
    let raw = RawAccount::from_account(ledger.accounts.get(1).unwrap()).unwrap();
    assert_eq!(text(raw.available), "0.5000");
    assert_eq!(text(raw.held), "1.0000");
    assert_eq!(text(raw.total), "1.5000");
    assert!(!raw.locked);
    apply(&mut ledger, record(TransactionType::Chargeback, 1, 1, "0"));
    let raw = RawAccount::from_account(ledger.accounts.get(1).unwrap()).unwrap();
    assert_eq!(text(raw.available), "0.5000");
    assert_eq!(text(raw.held), "0.0000");
    assert_eq!(text(raw.total), "0.5000");
    assert!(raw.locked);
}

#[test]
fn scenario_withdrawal_without_account() {
    let mut ledger = Ledger::new();
    apply(&mut ledger, record(TransactionType::Withdrawal, 2, 10, "5.0"));
    let accounts = ledger.close();
    assert!(accounts.get(2).is_none());
    assert!(!accounts.contains(2));
    assert!(accounts.data.is_empty());
}

#[test]
fn scenario_resolve_without_dispute() {
    let mut ledger = Ledger::new();
    apply(&mut ledger, record(TransactionType::Deposit, 3, 20, "3.0"));
    apply(&mut ledger, record(TransactionType::Resolve, 3, 20, "0"));
    let acc = ledger.accounts.get(3).unwrap();
    assert_eq!(text(acc.available), "3.0000");
    assert_eq!(text(acc.held), "0.0000");
    assert!(!acc.locked);
}

#[test]
fn balances_stay_non_negative_on_a_stream() {
    let mut ledger = Ledger::new();
    let stream = [
        record(TransactionType::Deposit, 1, 1, "2.5"),
        record(TransactionType::Withdrawal, 1, 2, "3.0"),
        record(TransactionType::Dispute, 1, 1, "0"),
        record(TransactionType::Withdrawal, 1, 3, "1.0"),
        record(TransactionType::Resolve, 1, 1, "0"),
        record(TransactionType::Dispute, 1, 1, "0"),
        record(TransactionType::Dispute, 1, 1, "0"),
        record(TransactionType::Chargeback, 1, 1, "0"),
    ];
    for tx in stream {
        apply(&mut ledger, tx);
        let acc = ledger.accounts.get(1).unwrap();
        assert!(acc.available.to_bits() >= 0);
        assert!(acc.held.to_bits() >= 0);
    }
    let acc = ledger.accounts.get(1).unwrap();
    assert_eq!(text(acc.available), "0.0000");
    assert_eq!(text(acc.held), "0.0000");
    assert!(acc.locked);
}

#[test]
fn deposit_adds_amount_even_with_repeated_id() {
    let mut ledger = Ledger::new();
    apply(&mut ledger, record(TransactionType::Deposit, 4, 7, "1.25"));
    assert_eq!(text(ledger.accounts.get(4).unwrap().available), "1.2500");
    apply(&mut ledger, record(TransactionType::Deposit, 4, 7, "0.5"));
    assert_eq!(text(ledger.accounts.get(4).unwrap().available), "1.7500");
}

#[test]
fn repeated_deposit_id_disputes_first_amount() {
    let mut ledger = Ledger::new();
    apply(&mut ledger, record(TransactionType::Deposit, 5, 9, "1.0"));
    apply(&mut ledger, record(TransactionType::Deposit, 5, 9, "4.0"));
    assert_eq!(text(ledger.transactions.get(&9).unwrap().raw.amount), "1.0000");
    apply(&mut ledger, record(TransactionType::Dispute, 5, 9, "0"));
    let acc = ledger.accounts.get(5).unwrap();
    assert_eq!(text(acc.available), "4.0000");
    assert_eq!(text(acc.held), "1.0000");
    assert!(ledger.transactions.get(&9).unwrap().disputed);
}

#[test]
fn records_without_account_are_dropped() {
    let mut ledger = Ledger::new();
    apply(&mut ledger, record(TransactionType::Deposit, 1, 1, "1.0"));
    for kind in [
        TransactionType::Withdrawal,
        TransactionType::Dispute,
        TransactionType::Resolve,
        TransactionType::Chargeback,
    ] {
        apply(&mut ledger, record(kind, 6, 1, "1.0"));
        assert!(!ledger.accounts.contains(6));
    }
    let acc = ledger.accounts.get(1).unwrap();
    assert_eq!(text(acc.available), "1.0000");
    assert!(!ledger.transactions.get(&1).unwrap().disputed);
}

#[test]
fn undisputed_chargeback_is_ignored() {
    let mut ledger = Ledger::new();
    apply(&mut ledger, record(TransactionType::Deposit, 1, 1, "2.0"));
    apply(&mut ledger, record(TransactionType::Chargeback, 1, 1, "0"));
    let acc = ledger.accounts.get(1).unwrap();
    assert_eq!(text(acc.available), "2.0000");
    assert_eq!(text(acc.held), "0.0000");
    assert!(!acc.locked);
}

#[test]
fn dispute_of_unknown_id_is_ignored() {
    let mut ledger = Ledger::new();
    apply(&mut ledger, record(TransactionType::Deposit, 1, 1, "2.0"));
    apply(&mut ledger, record(TransactionType::Dispute, 1, 99, "0"));
    let acc = ledger.accounts.get(1).unwrap();
    assert_eq!(text(acc.available), "2.0000");
    assert_eq!(text(acc.held), "0.0000");
    assert!(ledger.transactions.get(&99).is_none());
}

#[test]
fn second_dispute_without_funds_is_ignored() {
    let mut ledger = Ledger::new();
    apply(&mut ledger, record(TransactionType::Deposit, 1, 1, "2.0"));
    apply(&mut ledger, record(TransactionType::Dispute, 1, 1, "0"));
    apply(&mut ledger, record(TransactionType::Dispute, 1, 1, "0"));
    let acc = ledger.accounts.get(1).unwrap();
    assert_eq!(text(acc.available), "0.0000");
    assert_eq!(text(acc.held), "2.0000");
    apply(&mut ledger, record(TransactionType::Resolve, 1, 1, "0"));
    let acc = ledger.accounts.get(1).unwrap();
    assert_eq!(text(acc.available), "2.0000");
    assert_eq!(text(acc.held), "0.0000");
    assert!(!ledger.transactions.get(&1).unwrap().disputed);
}

#[test]
fn dispute_without_funds_leaves_record_undisputed() {
    let mut ledger = Ledger::new();
    apply(&mut ledger, record(TransactionType::Deposit, 1, 1, "2.0"));
    apply(&mut ledger, record(TransactionType::Withdrawal, 1, 2, "1.5"));
    apply(&mut ledger, record(TransactionType::Dispute, 1, 1, "0"));
    let acc = ledger.accounts.get(1).unwrap();
    assert_eq!(text(acc.available), "0.5000");
    assert_eq!(text(acc.held), "0.0000");
    assert!(!ledger.transactions.get(&1).unwrap().disputed);
}

#[test]
fn repeated_chargeback_drives_held_negative() {
    let mut ledger = Ledger::new();
    apply(&mut ledger, record(TransactionType::Deposit, 1, 1, "1.0"));
    apply(&mut ledger, record(TransactionType::Dispute, 1, 1, "0"));
    apply(&mut ledger, record(TransactionType::Chargeback, 1, 1, "0"));
    apply(&mut ledger, record(TransactionType::Chargeback, 1, 1, "0"));
    let acc = ledger.accounts.get(1).unwrap();
    assert_eq!(text(acc.held), "-1.0000");
    assert!(acc.locked);
}

#[test]
fn amount_text_round_trip() {
    for s in ["0", "1", "1.5", "0.0001", "-2.75", "123456.7891", "0.1", "9999.9999"] {
        let a = amount(s);
        let back = deserialize_amount(&serialize_amount(&a)).unwrap();
        assert_eq!(back, a);
    }
}

#[test]
fn amount_text_has_four_digits() {
    assert_eq!(serialize_amount(&amount("1")), "1.0000");
    assert_eq!(serialize_amount(&amount("0.1")), "0.1000");
    assert_eq!(serialize_amount(&amount("-3.25")), "-3.2500");
    assert_eq!(serialize_amount(&Amount::zero()), "0.0000");
    assert_eq!(amount("1.0").to_bits(), 1i128 << 64);
    assert_eq!(amount("0.5").to_bits(), 1i128 << 63);
}

#[test]
fn amount_text_rejects_non_numbers() {
    assert!(deserialize_amount("abc").is_none());
    assert!(deserialize_amount("").is_none());
    assert!(deserialize_amount("1.2.3").is_none());
}

#[test]
fn amount_arithmetic() {
    let a = amount("1.25");
    let b = amount("0.75");
    assert_eq!(serialize_amount(&a.add(b)), "2.0000");
    assert_eq!(serialize_amount(&a.sub(b)), "0.5000");
    assert!(b.le(a));
    assert!(!a.le(b));
    let max = Amount::from_bits(i128::MAX);
    assert!(max.checked_add(Amount::from_bits(1)).is_none());
    assert!(Amount::from_bits(i128::MIN).checked_sub(Amount::from_bits(1)).is_none());
}

#[test]
fn type_names() {
    assert_eq!(TransactionType::parse("deposit"), Some(TransactionType::Deposit));
    assert_eq!(TransactionType::parse("withdrawal"), Some(TransactionType::Withdrawal));
    assert_eq!(TransactionType::parse("dispute"), Some(TransactionType::Dispute));
    assert_eq!(TransactionType::parse("resolve"), Some(TransactionType::Resolve));
    assert_eq!(TransactionType::parse("chargeback"), Some(TransactionType::Chargeback));
    assert_eq!(TransactionType::parse("Deposit"), None);
    assert_eq!(TransactionType::parse("refund"), None);
}

#[test]
fn account_operations() {
    let mut acc = Account::new(8);
    assert_eq!(acc.client, 8);
    acc.deposit(amount("5"));
    acc.withdraw(amount("6"));
    assert_eq!(text(acc.available), "5.0000");
    acc.withdraw(amount("2"));
    assert_eq!(text(acc.available), "3.0000");
    acc.hold(amount("4"));
    assert_eq!(text(acc.held), "0.0000");
    acc.hold(amount("1"));
    assert_eq!(text(acc.available), "2.0000");
    assert_eq!(text(acc.held), "1.0000");
    acc.release(amount("2"));
    assert_eq!(text(acc.held), "1.0000");
    acc.release(amount("1"));
    assert_eq!(text(acc.available), "3.0000");
    assert_eq!(text(acc.held), "0.0000");
    acc.chargeback(amount("0.5"));
    assert_eq!(text(acc.held), "-0.5000");
    assert!(acc.locked);
}

#[test]
fn overflowing_deposit_does_not_fit() {
    let mut ledger = Ledger::new();
    let big = RawTransaction {
        tx_type: TransactionType::Deposit,
        client: 1,
        id: 1,
        amount: Amount::from_bits(i128::MAX),
    };
    apply(&mut ledger, big);
    assert!(!ledger.fits(&RawTransaction { id: 2, ..big }));
    let acc = ledger.close().get(1).unwrap();
    assert!(RawAccount::from_account(acc).is_some());
}

#[test]
fn record_from_fields() {
    let d = RawTransaction::from_fields("deposit", 1, 2, Some("1.5")).unwrap();
    assert_eq!(d.tx_type, TransactionType::Deposit);
    assert_eq!((d.client, d.id), (1, 2));
    assert_eq!(serialize_amount(&d.amount), "1.5000");
    assert!(RawTransaction::from_fields("deposit", 1, 2, None).is_none());
    assert!(RawTransaction::from_fields("withdrawal", 1, 2, Some("x")).is_none());
    assert!(RawTransaction::from_fields("refund", 1, 2, Some("1.0")).is_none());
    let r = RawTransaction::from_fields("dispute", 3, 4, None).unwrap();
    assert_eq!(r.tx_type, TransactionType::Dispute);
    assert_eq!(r.amount, Amount::zero());
    let c = RawTransaction::from_fields("chargeback", 3, 4, Some("")).unwrap();
    assert_eq!(c.tx_type, TransactionType::Chargeback);
    assert_eq!(c.amount.to_bits(), 0);
}

#[test]
fn history_record_starts_undisputed() {
    let raw = record(TransactionType::Deposit, 1, 1, "2.0");
    let t = Transaction::from(raw);
    assert_eq!(t.raw, raw);
    assert!(!t.disputed);
}

#[test]
fn account_store() {
    let mut accounts = Accounts::new();
    assert!(!accounts.contains(3));
    let a = accounts.get_or_create(3);
    assert_eq!(a, Account::new(3));
    assert!(accounts.contains(3));
    let mut b = a;
    b.deposit(amount("2"));
    accounts.put(b);
    assert_eq!(accounts.get_or_create(3), b);
    assert_eq!(accounts.get(3), Some(b));
    assert_eq!(accounts.data.len(), 1);
}
