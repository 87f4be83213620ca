use std::collections::{HashMap, HashSet};

use vstd::prelude::*;

use crate::account::{Account, MAX_BALANCE};
use crate::error::EngineErr;
use crate::models::{has_valid_precision, Amount, ClientId, Record, TransactionId, TxType};

verus! {

broadcast use vstd::std_specs::hash::group_hash_axioms;

/// The abstract state of a ledger: accounts by client, committed deposits and
/// withdrawals by transaction id, and the ids under open dispute.
pub struct LedgerState {
    pub accounts: Map<ClientId, Account>,
    pub transactions: Map<TransactionId, Record>,
    pub disputes: Set<TransactionId>,
}

/// The amount of a deposit or withdrawal event, if fit to move funds.
pub open spec fn checked_amount(r: Record) -> Result<Amount, EngineErr> {
    match r.amount {
        None => Err(EngineErr::Precision),
        Some(a) => if a.is_valid() {
            Ok(a)
        } else {
            Err(EngineErr::Precision)
        },
    }
}

impl LedgerState {
    /// The ledger's invariant: every account balanced and non-negative, every
    /// committed record carrying a valid amount, every open dispute naming a
    /// committed deposit.
    pub open spec fn wf(self) -> bool {
        &&& forall|c: ClientId| #[trigger] self.accounts.contains_key(c) ==> self.accounts[c].wf()
        &&& forall|t: TransactionId| #[trigger]
            self.transactions.contains_key(t) ==> {
                let rec = self.transactions[t];
                &&& rec.amount is Some
                &&& rec.amount.unwrap().wf()
                &&& rec.amount.unwrap().is_valid()
            }
        &&& forall|t: TransactionId| #[trigger]
            self.disputes.contains(t) ==> self.transactions.contains_key(t)
                && self.transactions[t].tx_type == TxType::Deposit
    }

    /// The client's account, or a fresh one where none exists yet.
    pub open spec fn account_or_empty(self, c: ClientId) -> Account {
        if self.accounts.contains_key(c) {
            self.accounts[c]
        } else {
            Account::empty()
        }
    }

    /// A deposit event would not carry its account past the largest balance.
    pub open spec fn deposit_fits(self, r: Record) -> bool {
        r.tx_type == TxType::Deposit && r.amount is Some && r.amount.unwrap().is_valid() ==> {
            self.account_or_empty(r.client).total + r.amount.unwrap().units() <= MAX_BALANCE
        }
    }

    pub open spec fn next_deposit(self, r: Record) -> Result<LedgerState, EngineErr> {
        if self.transactions.contains_key(r.tx) {
            Err(EngineErr::DuplicateTx(r.tx))
        } else {
            match checked_amount(r) {
                Err(e) => Err(e),
                Ok(a) => match self.account_or_empty(r.client).after_deposit(a.units()) {
                    Err(e) => Err(e),
                    Ok(acc) => Ok(
                        LedgerState {
                            accounts: self.accounts.insert(r.client, acc),
                            transactions: self.transactions.insert(r.tx, r),
                            disputes: self.disputes,
                        },
                    ),
                },
            }
        }
    }

    pub open spec fn next_withdrawal(self, r: Record) -> Result<LedgerState, EngineErr> {
        if self.transactions.contains_key(r.tx) {
            Err(EngineErr::DuplicateTx(r.tx))
        } else {
            match checked_amount(r) {
                Err(e) => Err(e),
                Ok(a) => if !self.accounts.contains_key(r.client) {
                    Err(EngineErr::UnknownAccount(r.tx))
                } else {
                    match self.accounts[r.client].after_withdraw(a.units()) {
                        Err(e) => Err(e),
                        Ok(acc) => Ok(
                            LedgerState {
                                accounts: self.accounts.insert(r.client, acc),
                                transactions: self.transactions.insert(r.tx, r),
                                disputes: self.disputes,
                            },
                        ),
                    }
                },
            }
        }
    }

    pub open spec fn next_dispute(self, r: Record) -> Result<LedgerState, EngineErr> {
        if !self.transactions.contains_key(r.tx) || self.transactions[r.tx].tx_type
            != TxType::Deposit {
            Err(EngineErr::UnknownAccount(r.tx))
        } else if self.disputes.contains(r.tx) {
            Err(EngineErr::DuplicateTx(r.tx))
        } else {
            match self.transactions[r.tx].amount {
                None => Err(EngineErr::Precision),
                Some(a) => if !self.accounts.contains_key(r.client) {
                    Err(EngineErr::UnknownAccount(r.tx))
                } else {
                    match self.accounts[r.client].after_hold(a.units()) {
                        Err(e) => Err(e),
                        Ok(acc) => Ok(
                            LedgerState {
                                accounts: self.accounts.insert(r.client, acc),
                                transactions: self.transactions,
                                disputes: self.disputes.insert(r.tx),
                            },
                        ),
                    }
                },
            }
        }
    }

    /// A resolve (`charge == false`) or a chargeback (`charge == true`).
    pub open spec fn next_settle(self, r: Record, charge: bool) -> Result<LedgerState, EngineErr> {
        if !self.disputes.contains(r.tx) || !self.transactions.contains_key(r.tx) {
            Err(EngineErr::UnknownAccount(r.tx))
        } else {
            match self.transactions[r.tx].amount {
                None => Err(EngineErr::Precision),
                Some(a) => if !self.accounts.contains_key(r.client) {
                    Err(EngineErr::UnknownAccount(r.tx))
                } else {
                    let acc = self.accounts[r.client];
                    let step = if charge {
                        acc.after_chargeback(a.units())
                    } else {
                        acc.after_release(a.units())
                    };
                    match step {
                        Err(e) => Err(e),
                        Ok(acc) => Ok(
                            LedgerState {
                                accounts: self.accounts.insert(r.client, acc),
                                transactions: self.transactions,
                                disputes: self.disputes.remove(r.tx),
                            },
                        ),
                    }
                },
            }
        }
    }

    /// The ledger after applying one event, or why the event is rejected
    /// (in which case the ledger stays as it was).
    pub open spec fn next(self, r: Record) -> Result<LedgerState, EngineErr> {
        match r.tx_type {
            TxType::Deposit => self.next_deposit(r),
            TxType::Withdrawal => self.next_withdrawal(r),
            TxType::Dispute => self.next_dispute(r),
            TxType::Resolve => self.next_settle(r, false),
            TxType::Chargeback => self.next_settle(r, true),
        }
    }

    /// `after` is what `next` gives from `before`, or `before` itself with the error.
    pub open spec fn stepped(
        before: LedgerState,
        after: LedgerState,
        res: Result<(), EngineErr>,
        r: Record,
    ) -> bool {
        match before.next(r) {
            Ok(s) => res is Ok && after == s,
            Err(e) => res == Err::<(), EngineErr>(e) && after == before,
        }
    }
}

/// The ledger engine: owns every account, the committed transactions and the
/// open disputes for one processing run.
pub struct ExchangeEngine {
    pub accounts: HashMap<ClientId, Account>,
    pub transactions: HashMap<TransactionId, Record>,
    pub disputes: HashSet<TransactionId>,
}

impl View for ExchangeEngine {
    type V = LedgerState;

    open spec fn view(&self) -> LedgerState {
        LedgerState {
            accounts: self.accounts@,
            transactions: self.transactions@,
            disputes: self.disputes@,
        }
    }
}

impl Default for ExchangeEngine {
    /// An engine with no accounts, transactions or disputes.
    fn default() -> (r: ExchangeEngine)
        ensures
            r@.accounts == Map::<ClientId, Account>::empty(),
            r@.transactions == Map::<TransactionId, Record>::empty(),
            r@.disputes == Set::<TransactionId>::empty(),
            r.wf(),
    {
        ExchangeEngine::new()
    }
}

impl ExchangeEngine {
    pub open spec fn wf(&self) -> bool {
        self@.wf()
    }

    /// An engine with no accounts, transactions or disputes.
    pub fn new() -> (r: ExchangeEngine)
        ensures
            r@.accounts == Map::<ClientId, Account>::empty(),
            r@.transactions == Map::<TransactionId, Record>::empty(),
            r@.disputes == Set::<TransactionId>::empty(),
            r.wf(),
    {
        ExchangeEngine { accounts: HashMap::new(), transactions: HashMap::new(), disputes: HashSet::new() }
    }

    fn process_deposit(&mut self, record: &Record) -> (r: Result<(), EngineErr>)
        requires
            old(self).wf(),
            record.wf(),
            record.tx_type == TxType::Deposit,
            old(self)@.deposit_fits(*record),
        ensures
            final(self).wf(),
            LedgerState::stepped(old(self)@, final(self)@, r, *record),
    {
        if self.transactions.contains_key(&record.tx) {
            return Err(EngineErr::DuplicateTx(record.tx));
        }
        match record.amount {
            None => Err(EngineErr::Precision),
            Some(amount) => {
                if amount.negative {
                    return Err(EngineErr::Precision);
                }
                if !has_valid_precision(&amount) {
                    return Err(EngineErr::Precision);
                }
                let units = amount.to_units();
                let mut acct = match self.accounts.get(&record.client) {
                    Some(a) => *a,
                    None => Account::new(),
                };
                match acct.deposit(units) {
                    Err(e) => Err(e),
                    Ok(()) => {
                        self.accounts.insert(record.client, acct);
                        self.transactions.insert(record.tx, *record);
                        Ok(())
                    },
                }
            },
        }
    }

    fn process_withdrawal(&mut self, record: &Record) -> (r: Result<(), EngineErr>)
        requires
            old(self).wf(),
            record.wf(),
            record.tx_type == TxType::Withdrawal,
        ensures
            final(self).wf(),
            LedgerState::stepped(old(self)@, final(self)@, r, *record),
    {
        if self.transactions.contains_key(&record.tx) {
            return Err(EngineErr::DuplicateTx(record.tx));
        }
        match record.amount {
            None => Err(EngineErr::Precision),
            Some(amount) => {
                if amount.negative {
                    return Err(EngineErr::Precision);
                }
                if !has_valid_precision(&amount) {
                    return Err(EngineErr::Precision);
                }
                let units = amount.to_units();
                let mut acct = match self.accounts.get(&record.client) {
                    Some(a) => *a,
                    None => {
                        return Err(EngineErr::UnknownAccount(record.tx));
                    },
                };
                match acct.withdraw(units) {
                    Err(e) => Err(e),
                    Ok(()) => {
                        self.accounts.insert(record.client, acct);
                        self.transactions.insert(record.tx, *record);
                        Ok(())
                    },
                }
            },
        }
    }

    fn process_dispute(&mut self, record: &Record) -> (r: Result<(), EngineErr>)
        requires
            old(self).wf(),
            record.tx_type == TxType::Dispute,
        ensures
            final(self).wf(),
            LedgerState::stepped(old(self)@, final(self)@, r, *record),
    {
        let disputed = match self.transactions.get(&record.tx) {
            Some(d) => *d,
            None => {
                return Err(EngineErr::UnknownAccount(record.tx));
            },
        };
        if disputed.tx_type != TxType::Deposit {
            return Err(EngineErr::UnknownAccount(record.tx));
        }
        if self.disputes.contains(&record.tx) {
            return Err(EngineErr::DuplicateTx(record.tx));
        }
        match disputed.amount {
            None => Err(EngineErr::Precision),
            Some(amount) => {
                let units = amount.to_units();
                let mut acct = match self.accounts.get(&record.client) {
                    Some(a) => *a,
                    None => {
                        return Err(EngineErr::UnknownAccount(record.tx));
                    },
                };
                match acct.apply_dispute(units) {
                    Err(e) => Err(e),
                    Ok(()) => {
                        self.accounts.insert(record.client, acct);
                        self.disputes.insert(record.tx);
                        Ok(())
                    },
                }
            },
        }
    }

    /// Closes the open dispute on `record.tx`: releases the held funds, or,
    /// where `charge` is set, reverses them and freezes the account.
    fn settle(&mut self, record: &Record, charge: bool) -> (r: Result<(), EngineErr>)
        requires
            old(self).wf(),
        ensures
            final(self).wf(),
            match old(self)@.next_settle(*record, charge) {
                Ok(s) => r is Ok && final(self)@ == s,
                Err(e) => r == Err::<(), EngineErr>(e) && final(self)@ == old(self)@,
            },
    {
        if !self.disputes.contains(&record.tx) {
            return Err(EngineErr::UnknownAccount(record.tx));
        }
        let disputed = match self.transactions.get(&record.tx) {
            Some(d) => *d,
            None => {
                return Err(EngineErr::UnknownAccount(record.tx));
            },
        };
        match disputed.amount {
            None => Err(EngineErr::Precision),
            Some(amount) => {
                let units = amount.to_units();
                let mut acct = match self.accounts.get(&record.client) {
                    Some(a) => *a,
                    None => {
                        return Err(EngineErr::UnknownAccount(record.tx));
                    },
                };
                let step = if charge {
                    acct.chargeback(units)
                } else {
                    acct.resolve_dispute(units)
                };
                match step {
                    Err(e) => Err(e),
                    Ok(()) => {
                        self.accounts.insert(record.client, acct);
                        self.disputes.remove(&record.tx);
                        Ok(())
                    },
                }
            },
        }
    }

    fn process_resolve(&mut self, record: &Record) -> (r: Result<(), EngineErr>)
        requires
            old(self).wf(),
            record.tx_type == TxType::Resolve,
        ensures
            final(self).wf(),
            LedgerState::stepped(old(self)@, final(self)@, r, *record),
    {
        self.settle(record, false)
    }

    fn process_chargeback(&mut self, record: &Record) -> (r: Result<(), EngineErr>)
        requires
            old(self).wf(),
            record.tx_type == TxType::Chargeback,
        ensures
            final(self).wf(),
            LedgerState::stepped(old(self)@, final(self)@, r, *record),
    {
        self.settle(record, true)
    }

    /// Applies one event: either the ledger moves to `next` of its state, or
    /// the event is rejected with its error and nothing changes.
    pub fn process_transaction(&mut self, record: &Record) -> (r: Result<(), EngineErr>)
        requires
            old(self).wf(),
            record.wf(),
            old(self)@.deposit_fits(*record),
        ensures
            final(self).wf(),
            LedgerState::stepped(old(self)@, final(self)@, r, *record),
    {
        match record.tx_type {
            TxType::Deposit => self.process_deposit(record),
            TxType::Withdrawal => self.process_withdrawal(record),
            TxType::Dispute => self.process_dispute(record),
            TxType::Resolve => self.process_resolve(record),
            TxType::Chargeback => self.process_chargeback(record),
        }
    }

    /// Whether a deposit event would keep its account within the largest
    /// balance; true for every other event.
    pub fn deposit_fits(&self, record: &Record) -> (r: bool)
        requires
            self.wf(),
            record.wf(),
        ensures
            r == self@.deposit_fits(*record),
    {
        if record.tx_type != TxType::Deposit {
            return true;
        }
        match record.amount {
            None => true,
            Some(amount) => {
                if amount.negative || !has_valid_precision(&amount) {
                    return true;
                }
                let units = amount.to_units();
                let total: i128 = match self.accounts.get(&record.client) {
                    Some(a) => a.total,
                    None => 0,
                };
                total <= MAX_BALANCE - units
            },
        }
    }
}

} // verus!
