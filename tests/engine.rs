use exchange_ledger::account::Account;
use exchange_ledger::engine::ExchangeEngine;
use exchange_ledger::error::EngineErr;
use exchange_ledger::models::{has_valid_precision, Amount, Record, TxType};

fn units(mantissa: i128, scale: u32) -> i128 {
    Amount::new(mantissa, scale).to_units()
}

fn event(tx_type: TxType, client: u16, tx: u32, amount: Option<Amount>) -> Record {
    Record { tx_type, client, tx, amount }
}

fn apply(engine: &mut ExchangeEngine, record: Record) -> Result<(), EngineErr> {
    engine.process_transaction(&record)
}

#[test]
fn test_account_deposit_and_withdrawal() {
    let mut engine = ExchangeEngine::default();

    let deposit = Record {
        tx_type: TxType::Deposit,
        client: 1,
        tx: 1,
        amount: Some(Amount::new(1000, 2)),
    };
    engine.process_transaction(&deposit).unwrap();

    let withdrawal = Record {
        tx_type: TxType::Withdrawal,
        client: 1,
        tx: 2,
        amount: Some(Amount::new(500, 2)),
    };
    engine.process_transaction(&withdrawal).unwrap();

    let account = engine.accounts.get(&1).unwrap();
    assert_eq!(account.available, units(500, 2));
    assert_eq!(account.total, units(500, 2));
    assert_eq!(account.held, units(0, 2));
}

#[test]
fn test_account_dispute_and_resolve() {
    let mut engine = ExchangeEngine::default();

    let deposit = Record {
        tx_type: TxType::Deposit,
        client: 1,
        tx: 1,
        amount: Some(Amount::new(1000, 2)),
    };
    engine.process_transaction(&deposit).unwrap();

    let dispute = Record { tx_type: TxType::Dispute, client: 1, tx: 1, amount: None };
    engine.process_transaction(&dispute).unwrap();

    let resolve = Record { tx_type: TxType::Resolve, client: 1, tx: 1, amount: None };
    engine.process_transaction(&resolve).unwrap();

    let account = engine.accounts.get(&1).unwrap();
    assert_eq!(account.available, units(1000, 2));
    assert_eq!(account.held, units(0, 2));
    assert_eq!(account.total, units(1000, 2));
}

#[test]
fn test_account_chargeback() {
    let mut engine = ExchangeEngine::default();

    let deposit = Record {
        tx_type: TxType::Deposit,
        client: 1,
        tx: 1,
        amount: Some(Amount::new(1000, 2)),
    };
    engine.process_transaction(&deposit).unwrap();

    let dispute = Record { tx_type: TxType::Dispute, client: 1, tx: 1, amount: None };
    engine.process_transaction(&dispute).unwrap();

    let chargeback = Record { tx_type: TxType::Chargeback, client: 1, tx: 1, amount: None };
    engine.process_transaction(&chargeback).unwrap();

    let account = engine.accounts.get(&1).unwrap();
    assert_eq!(account.available, units(0, 2));
    assert_eq!(account.held, units(0, 2));
    assert_eq!(account.total, units(0, 2));
    assert!(account.locked);
}

#[test]
fn withdrawal_from_unknown_client_creates_nothing() {
    let mut engine = ExchangeEngine::new();
    let r = apply(&mut engine, event(TxType::Withdrawal, 5, 9, Some(Amount::new(100, 2))));
    assert!(matches!(r, Err(EngineErr::UnknownAccount(9))));
    assert!(!engine.accounts.contains_key(&5));
    assert!(engine.transactions.is_empty());
}

#[test]
fn duplicate_deposit_counts_once() {
    let mut engine = ExchangeEngine::new();
    apply(&mut engine, event(TxType::Deposit, 1, 1, Some(Amount::new(1000, 2)))).unwrap();
    let r = apply(&mut engine, event(TxType::Deposit, 1, 1, Some(Amount::new(1000, 2))));
    assert!(matches!(r, Err(EngineErr::DuplicateTx(1))));
    let account = engine.accounts.get(&1).unwrap();
    assert_eq!(account.available, 100000);
    assert_eq!(account.total, 100000);
    assert_eq!(account.held, 0);
}

#[test]
fn fresh_deposit_opens_account() {
    let mut engine = ExchangeEngine::new();
    apply(&mut engine, event(TxType::Deposit, 7, 3, Some(Amount::new(12345, 4)))).unwrap();
    let account = engine.accounts.get(&7).unwrap();
    assert_eq!(account.available, 12345);
    assert_eq!(account.held, 0);
    assert_eq!(account.total, 12345);
    assert!(!account.locked);
}

#[test]
fn withdrawal_beyond_available_changes_nothing() {
    let mut engine = ExchangeEngine::new();
    apply(&mut engine, event(TxType::Deposit, 1, 1, Some(Amount::new(3, 0)))).unwrap();
    let r = apply(&mut engine, event(TxType::Withdrawal, 1, 2, Some(Amount::new(30001, 4))));
    assert!(matches!(r, Err(EngineErr::InsufficientFunds)));
    let account = engine.accounts.get(&1).unwrap();
    assert_eq!((account.available, account.held, account.total), (30000, 0, 30000));
    assert!(!engine.transactions.contains_key(&2));
    apply(&mut engine, event(TxType::Withdrawal, 1, 2, Some(Amount::new(3, 0)))).unwrap();
    let account = engine.accounts.get(&1).unwrap();
    assert_eq!((account.available, account.held, account.total), (0, 0, 0));
}

#[test]
fn dispute_of_unknown_or_withdrawal_id_fails() {
    let mut engine = ExchangeEngine::new();
    apply(&mut engine, event(TxType::Deposit, 1, 1, Some(Amount::new(10, 0)))).unwrap();
    apply(&mut engine, event(TxType::Withdrawal, 1, 2, Some(Amount::new(1, 0)))).unwrap();
    let r = apply(&mut engine, event(TxType::Dispute, 1, 42, None));
    assert!(matches!(r, Err(EngineErr::UnknownAccount(42))));
    let r = apply(&mut engine, event(TxType::Dispute, 1, 2, None));
    assert!(matches!(r, Err(EngineErr::UnknownAccount(2))));
    assert!(engine.disputes.is_empty());
}

#[test]
fn second_dispute_fails_until_resolved() {
    let mut engine = ExchangeEngine::new();
    apply(&mut engine, event(TxType::Deposit, 1, 1, Some(Amount::new(10, 0)))).unwrap();
    apply(&mut engine, event(TxType::Dispute, 1, 1, None)).unwrap();
    let account = engine.accounts.get(&1).unwrap();
    assert_eq!((account.available, account.held, account.total), (0, 100000, 100000));
    let r = apply(&mut engine, event(TxType::Dispute, 1, 1, None));
    assert!(matches!(r, Err(EngineErr::DuplicateTx(1))));
    apply(&mut engine, event(TxType::Resolve, 1, 1, None)).unwrap();
    apply(&mut engine, event(TxType::Dispute, 1, 1, None)).unwrap();
    assert!(engine.disputes.contains(&1));
}

#[test]
fn dispute_without_funds_is_refused() {
    let mut engine = ExchangeEngine::new();
    apply(&mut engine, event(TxType::Deposit, 1, 1, Some(Amount::new(10, 0)))).unwrap();
    apply(&mut engine, event(TxType::Withdrawal, 1, 2, Some(Amount::new(4, 0)))).unwrap();
    let r = apply(&mut engine, event(TxType::Dispute, 1, 1, None));
    assert!(matches!(r, Err(EngineErr::InsufficientFunds)));
    assert!(engine.disputes.is_empty());
}

#[test]
fn resolve_and_chargeback_need_open_dispute() {
    let mut engine = ExchangeEngine::new();
    apply(&mut engine, event(TxType::Deposit, 1, 1, Some(Amount::new(10, 0)))).unwrap();
    let r = apply(&mut engine, event(TxType::Resolve, 1, 1, None));
    assert!(matches!(r, Err(EngineErr::UnknownAccount(1))));
    let r = apply(&mut engine, event(TxType::Chargeback, 1, 1, None));
    assert!(matches!(r, Err(EngineErr::UnknownAccount(1))));
    let account = engine.accounts.get(&1).unwrap();
    assert_eq!((account.available, account.held, account.total), (100000, 0, 100000));
    assert!(!account.locked);
}

#[test]
fn locked_account_rejects_everything() {
    let mut engine = ExchangeEngine::new();
    apply(&mut engine, event(TxType::Deposit, 1, 1, Some(Amount::new(10, 0)))).unwrap();
    apply(&mut engine, event(TxType::Deposit, 1, 2, Some(Amount::new(5, 0)))).unwrap();
    apply(&mut engine, event(TxType::Deposit, 1, 3, Some(Amount::new(2, 0)))).unwrap();
    apply(&mut engine, event(TxType::Dispute, 1, 1, None)).unwrap();
    apply(&mut engine, event(TxType::Dispute, 1, 3, None)).unwrap();
    apply(&mut engine, event(TxType::Chargeback, 1, 1, None)).unwrap();
    let snapshot = *engine.accounts.get(&1).unwrap();
    assert!(snapshot.locked);
    assert_eq!((snapshot.available, snapshot.held, snapshot.total), (50000, 20000, 70000));
    let attempts = [
        event(TxType::Deposit, 1, 10, Some(Amount::new(1, 0))),
        event(TxType::Withdrawal, 1, 11, Some(Amount::new(1, 0))),
        event(TxType::Dispute, 1, 2, None),
        event(TxType::Resolve, 1, 3, None),
        event(TxType::Chargeback, 1, 3, None),
    ];
    for attempt in attempts {
        let r = apply(&mut engine, attempt);
        assert!(matches!(r, Err(EngineErr::AccountLocked)));
        let now = engine.accounts.get(&1).unwrap();
        assert_eq!((now.available, now.held, now.total), (50000, 20000, 70000));
        assert!(now.locked);
    }
}

#[test]
fn bad_amounts_are_rejected_for_precision() {
    let mut engine = ExchangeEngine::new();
    let too_fine = Amount::new(123456, 5);
    let negative = Amount::new(-100, 2);
    let negative_zero = Amount { negative: true, magnitude: 0, scale: 0 };
    for (kind, tx, amount) in [
        (TxType::Deposit, 1, Some(too_fine)),
        (TxType::Deposit, 2, Some(negative)),
        (TxType::Deposit, 3, Some(negative_zero)),
        (TxType::Deposit, 4, None),
        (TxType::Withdrawal, 5, Some(too_fine)),
        (TxType::Withdrawal, 6, Some(negative)),
        (TxType::Withdrawal, 7, None),
    ] {
        let r = apply(&mut engine, event(kind, 1, tx, amount));
        assert!(matches!(r, Err(EngineErr::Precision)));
    }
    assert!(engine.accounts.is_empty());
    assert!(engine.transactions.is_empty());
}

#[test]
fn reused_id_is_a_duplicate() {
    let mut engine = ExchangeEngine::new();
    apply(&mut engine, event(TxType::Deposit, 1, 1, Some(Amount::new(10, 0)))).unwrap();
    apply(&mut engine, event(TxType::Withdrawal, 1, 2, Some(Amount::new(1, 0)))).unwrap();
    let r = apply(&mut engine, event(TxType::Withdrawal, 1, 1, Some(Amount::new(1, 0))));
    assert!(matches!(r, Err(EngineErr::DuplicateTx(1))));
    let r = apply(&mut engine, event(TxType::Deposit, 2, 2, Some(Amount::new(1, 0))));
    assert!(matches!(r, Err(EngineErr::DuplicateTx(2))));
    assert!(!engine.accounts.contains_key(&2));
}

#[test]
fn failed_deposit_on_locked_account_leaves_id_free() {
    let mut engine = ExchangeEngine::new();
    apply(&mut engine, event(TxType::Deposit, 1, 1, Some(Amount::new(10, 0)))).unwrap();
    apply(&mut engine, event(TxType::Dispute, 1, 1, None)).unwrap();
    apply(&mut engine, event(TxType::Chargeback, 1, 1, None)).unwrap();
    let r = apply(&mut engine, event(TxType::Deposit, 1, 5, Some(Amount::new(1, 0))));
    assert!(matches!(r, Err(EngineErr::AccountLocked)));
    apply(&mut engine, event(TxType::Deposit, 2, 5, Some(Amount::new(1, 0)))).unwrap();
    assert_eq!(engine.accounts.get(&2).unwrap().total, 10000);
}

#[test]
fn dispute_moves_funds_of_the_named_client() {
    let mut engine = ExchangeEngine::new();
    apply(&mut engine, event(TxType::Deposit, 1, 1, Some(Amount::new(10, 0)))).unwrap();
    apply(&mut engine, event(TxType::Deposit, 2, 2, Some(Amount::new(20, 0)))).unwrap();
    apply(&mut engine, event(TxType::Dispute, 2, 1, None)).unwrap();
    let a2 = engine.accounts.get(&2).unwrap();
    assert_eq!((a2.available, a2.held, a2.total), (100000, 100000, 200000));
    let a1 = engine.accounts.get(&1).unwrap();
    assert_eq!((a1.available, a1.held, a1.total), (100000, 0, 100000));
    let r = apply(&mut engine, event(TxType::Dispute, 3, 2, None));
    assert!(matches!(r, Err(EngineErr::UnknownAccount(2))));
}

#[test]
fn amount_units_follow_scale() {
    assert_eq!(units(1000, 2), 100000);
    assert_eq!(units(5, 0), 50000);
    assert_eq!(units(5, 1), 5000);
    assert_eq!(units(5, 3), 50);
    assert_eq!(units(5, 4), 5);
    assert_eq!(units(0, 4), 0);
    assert!(has_valid_precision(&Amount::new(1, 4)));
    assert!(!has_valid_precision(&Amount::new(1, 5)));
    let a = Amount::new(-7, 3);
    assert!(a.negative);
    assert_eq!(a.magnitude, 7);
    assert_eq!(a.scale, 3);
}

#[test]
fn largest_deposit_fits_once() {
    let mut engine = ExchangeEngine::new();
    let biggest = Amount::new(79228162514264337593543950335, 0);
    let first = event(TxType::Deposit, 1, 1, Some(biggest));
    assert!(engine.deposit_fits(&first));
    engine.process_transaction(&first).unwrap();
    let second = event(TxType::Deposit, 1, 2, Some(Amount::new(1, 4)));
    assert!(!engine.deposit_fits(&second));
    let elsewhere = event(TxType::Deposit, 2, 2, Some(Amount::new(1, 4)));
    assert!(engine.deposit_fits(&elsewhere));
}

#[test]
fn account_operations_follow_the_rules() {
    let mut a = Account::new();
    assert!(a.deposit(100).is_ok());
    assert!(matches!(a.withdraw(101), Err(EngineErr::InsufficientFunds)));
    assert!(a.apply_dispute(60).is_ok());
    assert_eq!((a.available, a.held, a.total), (40, 60, 100));
    assert!(matches!(a.resolve_dispute(61), Err(EngineErr::InsufficientFunds)));
    assert!(a.resolve_dispute(10).is_ok());
    assert_eq!((a.available, a.held, a.total), (50, 50, 100));
    assert!(matches!(a.chargeback(51), Err(EngineErr::InsufficientFunds)));
    assert!(!a.locked);
    assert!(a.chargeback(50).is_ok());
    assert_eq!((a.available, a.held, a.total), (50, 0, 50));
    assert!(a.locked);
    assert!(matches!(a.deposit(1), Err(EngineErr::AccountLocked)));
    assert!(matches!(a.withdraw(1), Err(EngineErr::AccountLocked)));
    assert!(matches!(a.apply_dispute(1), Err(EngineErr::AccountLocked)));
    assert!(matches!(a.resolve_dispute(0), Err(EngineErr::AccountLocked)));
    assert!(matches!(a.chargeback(0), Err(EngineErr::AccountLocked)));
    assert_eq!((a.available, a.held, a.total), (50, 0, 50));
}
