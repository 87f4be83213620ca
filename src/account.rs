use vstd::prelude::*;

use crate::error::EngineErr;

verus! {

/// Largest balance, in ten-thousandths, that the ledger holds: the largest
/// decimal value carried at four fractional digits.
pub const MAX_BALANCE: i128 = 792281625142643375935439503350000;

/// A client's balances, in ten-thousandths, and whether it is frozen.
#[derive(Clone, Copy, Debug)]
pub struct Account {
    pub available: i128,
    pub held: i128,
    pub total: i128,
    pub locked: bool,
}

impl Account {
    /// Balances add up and never go negative.
    pub open spec fn wf(self) -> bool {
        &&& self.total == self.available + self.held
        &&& self.available >= 0
        &&& self.held >= 0
        &&& self.total <= MAX_BALANCE
    }

    pub open spec fn empty() -> Account {
        Account { available: 0, held: 0, total: 0, locked: false }
    }

    /// The account after crediting `amount`, or why that fails.
    pub open spec fn after_deposit(self, amount: int) -> Result<Account, EngineErr> {
        if self.locked {
            Err(EngineErr::AccountLocked)
        } else {
            Ok(Account {
                available: (self.available + amount) as i128,
                total: (self.total + amount) as i128,
                ..self
            })
        }
    }

    /// The account after debiting `amount`, or why that fails.
    pub open spec fn after_withdraw(self, amount: int) -> Result<Account, EngineErr> {
        if self.locked {
            Err(EngineErr::AccountLocked)
        } else if self.available < amount {
            Err(EngineErr::InsufficientFunds)
        } else {
            Ok(Account {
                available: (self.available - amount) as i128,
                total: (self.total - amount) as i128,
                ..self
            })
        }
    }

    /// The account after moving `amount` from available to held, or why that fails.
    pub open spec fn after_hold(self, amount: int) -> Result<Account, EngineErr> {
        if self.locked {
            Err(EngineErr::AccountLocked)
        } else if self.available < amount {
            Err(EngineErr::InsufficientFunds)
        } else {
            Ok(Account {
                available: (self.available - amount) as i128,
                held: (self.held + amount) as i128,
                ..self
            })
        }
    }

    /// The account after moving `amount` from held back to available, or why that fails.
    pub open spec fn after_release(self, amount: int) -> Result<Account, EngineErr> {
        if self.locked {
            Err(EngineErr::AccountLocked)
        } else if self.held < amount {
            Err(EngineErr::InsufficientFunds)
        } else {
            Ok(Account {
                available: (self.available + amount) as i128,
                held: (self.held - amount) as i128,
                ..self
            })
        }
    }

    /// The account after reversing `amount` of held funds and freezing, or why that fails.
    pub open spec fn after_chargeback(self, amount: int) -> Result<Account, EngineErr> {
        if self.locked {
            Err(EngineErr::AccountLocked)
        } else if self.held < amount {
            Err(EngineErr::InsufficientFunds)
        } else {
            Ok(Account {
                held: (self.held - amount) as i128,
                total: (self.total - amount) as i128,
                locked: true,
                ..self
            })
        }
    }

    /// `self` becomes what `step` gives, or stays put with its error.
    pub open spec fn moved_to(
        before: Account,
        after: Account,
        r: Result<(), EngineErr>,
        step: Result<Account, EngineErr>,
    ) -> bool {
        match step {
            Ok(a) => r is Ok && after == a,
            Err(e) => r == Err::<(), EngineErr>(e) && after == before,
        }
    }

    /// A fresh account with zero balances, unlocked.
    pub fn new() -> (r: Account)
        ensures
            r == Account::empty(),
            r.wf(),
    {
        Account { available: 0, held: 0, total: 0, locked: false }
    }

    /// Credits `amount` to available and total.
    pub fn deposit(&mut self, amount: i128) -> (r: Result<(), EngineErr>)
        requires
            old(self).wf(),
            amount >= 0,
            old(self).total + amount <= MAX_BALANCE,
        ensures
            final(self).wf(),
            Account::moved_to(*old(self), *final(self), r, old(self).after_deposit(amount as int)),
    {
        if self.locked {
            return Err(EngineErr::AccountLocked);
        }
        self.available = self.available + amount;
        self.total = self.total + amount;
        Ok(())
    }

    /// Debits `amount` from available and total, if available covers it.
    pub fn withdraw(&mut self, amount: i128) -> (r: Result<(), EngineErr>)
        requires
            old(self).wf(),
            amount >= 0,
        ensures
            final(self).wf(),
            Account::moved_to(*old(self), *final(self), r, old(self).after_withdraw(amount as int)),
    {
        if self.locked {
            return Err(EngineErr::AccountLocked);
        }
        if self.available >= amount {
            self.available = self.available - amount;
            self.total = self.total - amount;
            Ok(())
        } else {
            Err(EngineErr::InsufficientFunds)
        }
    }

    /// Moves `amount` from available to held, if available covers it.
    pub fn apply_dispute(&mut self, amount: i128) -> (r: Result<(), EngineErr>)
        requires
            old(self).wf(),
            amount >= 0,
        ensures
            final(self).wf(),
            Account::moved_to(*old(self), *final(self), r, old(self).after_hold(amount as int)),
    {
        if self.locked {
            return Err(EngineErr::AccountLocked);
        }
        if self.available >= amount {
            self.available = self.available - amount;
            self.held = self.held + amount;
            Ok(())
        } else {
            Err(EngineErr::InsufficientFunds)
        }
    }

    /// Moves `amount` from held back to available, if held covers it.
    pub fn resolve_dispute(&mut self, amount: i128) -> (r: Result<(), EngineErr>)
        requires
            old(self).wf(),
            amount >= 0,
        ensures
            final(self).wf(),
            Account::moved_to(*old(self), *final(self), r, old(self).after_release(amount as int)),
    {
        if self.locked {
            return Err(EngineErr::AccountLocked);
        }
        if self.held >= amount {
            self.held = self.held - amount;
            self.available = self.available + amount;
            Ok(())
        } else {
            Err(EngineErr::InsufficientFunds)
        }
    }

    /// Removes `amount` from held and total and freezes the account, if held covers it.
    pub fn chargeback(&mut self, amount: i128) -> (r: Result<(), EngineErr>)
        requires
            old(self).wf(),
            amount >= 0,
        ensures
            final(self).wf(),
            Account::moved_to(
                *old(self),
                *final(self),
                r,
                old(self).after_chargeback(amount as int),
            ),
    {
        if self.locked {
            return Err(EngineErr::AccountLocked);
        }
        if self.held >= amount {
            self.total = self.total - amount;
            self.held = self.held - amount;
            self.locked = true;
            Ok(())
        } else {
            Err(EngineErr::InsufficientFunds)
        }
    }
}

} // verus!
