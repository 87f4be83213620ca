use vstd::prelude::*;

use crate::account::Account;
use crate::engine::{checked_amount, LedgerState};
use crate::error::EngineErr;
use crate::models::{Record, TxType};

verus! {

/// Every event that the ledger accepts keeps it well formed: each account's
/// total is its available plus its held funds, and neither is negative.
pub proof fn lemma_next_preserves_wf(s: LedgerState, r: Record)
    requires
        s.wf(),
        r.wf(),
        s.deposit_fits(r),
    ensures
        s.next(r) is Ok ==> s.next(r).unwrap().wf(),
        forall|c| #[trigger]
            s.accounts.contains_key(c) ==> {
                let a = s.accounts[c];
                a.total == a.available + a.held && a.available >= 0 && a.held >= 0
            },
{
    if let Some(a) = r.amount {
        if a.is_valid() {
            a.lemma_units_bounds();
        }
    }
    if s.transactions.contains_key(r.tx) {
        s.transactions[r.tx].amount.unwrap().lemma_units_bounds();
    }
    if let Ok(s2) = s.next(r) {
        assert forall|c| #[trigger] s2.accounts.contains_key(c) implies s2.accounts[c].wf() by {
            if c != r.client {
                assert(s.accounts.contains_key(c));
            }
        }
    }
}

/// A valid deposit to a client with no account yet opens the account with the
/// amount available, nothing held, the amount in total, and unlocked.
pub proof fn lemma_deposit_opens_account(s: LedgerState, r: Record)
    requires
        s.wf(),
        r.wf(),
        r.tx_type == TxType::Deposit,
        !s.transactions.contains_key(r.tx),
        !s.accounts.contains_key(r.client),
        r.amount is Some,
        r.amount.unwrap().is_valid(),
    ensures
        s.next(r) is Ok,
        s.next(r).unwrap().accounts[r.client] == (Account {
            available: r.amount.unwrap().units() as i128,
            held: 0,
            total: r.amount.unwrap().units() as i128,
            locked: false,
        }),
{
    r.amount.unwrap().lemma_units_bounds();
}

/// A withdrawal within the available funds of an open account lowers
/// available and total by the amount and keeps held; one beyond them is
/// rejected for insufficient funds, the ledger unchanged.
pub proof fn lemma_withdrawal_bounds(s: LedgerState, r: Record)
    requires
        s.wf(),
        r.wf(),
        r.tx_type == TxType::Withdrawal,
        !s.transactions.contains_key(r.tx),
        s.accounts.contains_key(r.client),
        !s.accounts[r.client].locked,
        r.amount is Some,
        r.amount.unwrap().is_valid(),
    ensures
        ({
            let a = r.amount.unwrap().units();
            let before = s.accounts[r.client];
            &&& a <= before.available ==> {
                &&& s.next(r) is Ok
                &&& s.next(r).unwrap().accounts[r.client].available == before.available - a
                &&& s.next(r).unwrap().accounts[r.client].total == before.total - a
                &&& s.next(r).unwrap().accounts[r.client].held == before.held
            }
            &&& a > before.available ==> s.next(r) == Err::<LedgerState, EngineErr>(
                EngineErr::InsufficientFunds,
            )
        }),
{
    r.amount.unwrap().lemma_units_bounds();
}

/// A dispute of an id that is not a committed deposit is rejected as unknown.
pub proof fn lemma_dispute_needs_deposit(s: LedgerState, r: Record)
    requires
        r.tx_type == TxType::Dispute,
        !s.transactions.contains_key(r.tx) || s.transactions[r.tx].tx_type != TxType::Deposit,
    ensures
        s.next(r) == Err::<LedgerState, EngineErr>(EngineErr::UnknownAccount(r.tx)),
{
}

/// Once a dispute on an id is open, a second dispute on it is rejected as a
/// duplicate.
pub proof fn lemma_dispute_not_reopened(s: LedgerState, r: Record, again: Record)
    requires
        r.tx_type == TxType::Dispute,
        again.tx_type == TxType::Dispute,
        again.tx == r.tx,
        s.next(r) is Ok,
    ensures
        s.next(r).unwrap().next(again) == Err::<LedgerState, EngineErr>(
            EngineErr::DuplicateTx(r.tx),
        ),
{
}

/// Resolve and chargeback need an open dispute on their id; without one they
/// are rejected as unknown.
pub proof fn lemma_settle_needs_open_dispute(s: LedgerState, r: Record)
    requires
        r.tx_type == TxType::Resolve || r.tx_type == TxType::Chargeback,
        !s.disputes.contains(r.tx),
    ensures
        s.next(r) == Err::<LedgerState, EngineErr>(EngineErr::UnknownAccount(r.tx)),
{
}

/// A chargeback that goes through freezes the client's account.
pub proof fn lemma_chargeback_locks(s: LedgerState, r: Record)
    requires
        r.tx_type == TxType::Chargeback,
        s.next(r) is Ok,
    ensures
        s.next(r).unwrap().accounts[r.client].locked,
{
}

/// The event gets past the checks that come before its account is touched:
/// a fresh id and a valid amount for deposits and withdrawals, a committed
/// deposit not yet disputed for disputes, an open dispute for the others.
pub open spec fn reaches_account(s: LedgerState, r: Record) -> bool {
    match r.tx_type {
        TxType::Deposit | TxType::Withdrawal => !s.transactions.contains_key(r.tx)
            && checked_amount(r) is Ok,
        TxType::Dispute => s.transactions.contains_key(r.tx) && s.transactions[r.tx].tx_type
            == TxType::Deposit && !s.disputes.contains(r.tx),
        TxType::Resolve | TxType::Chargeback => s.disputes.contains(r.tx)
            && s.transactions.contains_key(r.tx),
    }
}

/// Every event on a frozen account is rejected, leaving the ledger as it was;
/// one that reaches the account is rejected because it is locked.
pub proof fn lemma_locked_account_rejects(s: LedgerState, r: Record)
    requires
        s.wf(),
        s.accounts.contains_key(r.client),
        s.accounts[r.client].locked,
    ensures
        s.next(r) is Err,
        reaches_account(s, r) ==> s.next(r) == Err::<LedgerState, EngineErr>(
            EngineErr::AccountLocked,
        ),
{
}

/// A frozen account stays frozen, with the same balances, whatever event comes next.
pub proof fn lemma_lock_is_permanent(s: LedgerState, r: Record, c: crate::models::ClientId)
    requires
        s.wf(),
        s.accounts.contains_key(c),
        s.accounts[c].locked,
        s.next(r) is Ok,
    ensures
        s.next(r).unwrap().accounts.contains_key(c),
        s.next(r).unwrap().accounts[c] == s.accounts[c],
{
    if r.client == c {
        lemma_locked_account_rejects(s, r);
    }
}

/// A deposit or withdrawal whose amount is negative or has more than four
/// fractional digits is rejected for precision.
pub proof fn lemma_bad_amount_rejected(s: LedgerState, r: Record)
    requires
        r.tx_type == TxType::Deposit || r.tx_type == TxType::Withdrawal,
        !s.transactions.contains_key(r.tx),
        r.amount is Some,
        r.amount.unwrap().negative || r.amount.unwrap().scale > 4,
    ensures
        s.next(r) == Err::<LedgerState, EngineErr>(EngineErr::Precision),
{
}

/// A deposit or withdrawal reusing a committed id is rejected as a duplicate.
pub proof fn lemma_reused_id_rejected(s: LedgerState, r: Record)
    requires
        r.tx_type == TxType::Deposit || r.tx_type == TxType::Withdrawal,
        s.transactions.contains_key(r.tx),
    ensures
        s.next(r) == Err::<LedgerState, EngineErr>(EngineErr::DuplicateTx(r.tx)),
{
}

/// After a deposit or withdrawal is committed, any later deposit or
/// withdrawal with its id is rejected as a duplicate.
pub proof fn lemma_committed_id_not_reused(s: LedgerState, r: Record, again: Record)
    requires
        r.tx_type == TxType::Deposit || r.tx_type == TxType::Withdrawal,
        again.tx_type == TxType::Deposit || again.tx_type == TxType::Withdrawal,
        again.tx == r.tx,
        s.next(r) is Ok,
    ensures
        s.next(r).unwrap().next(again) == Err::<LedgerState, EngineErr>(
            EngineErr::DuplicateTx(r.tx),
        ),
{
}

} // verus!
