use vstd::prelude::*;

verus! {

pub type ClientId = u16;

pub type TransactionId = u32;

/// Largest magnitude of a decimal mantissa (96 bits).
pub const MAX_MAGNITUDE: u128 = 79228162514264337593543950335;

/// Largest number of fractional digits a decimal can carry.
pub const MAX_SCALE: u32 = 28;

/// Number of fractional digits kept by the ledger.
pub const LEDGER_SCALE: u32 = 4;

/// The five kinds of ledger event.
#[derive(Clone, Copy, Debug, PartialEq, Eq, Structural)]
pub enum TxType {
    Deposit,
    Withdrawal,
    Dispute,
    Resolve,
    Chargeback,
}

/// A fixed-point decimal: `(-1)^negative * magnitude / 10^scale`.
///
/// The sign is kept apart from the magnitude, so a negative zero exists
/// and counts as negative.
#[derive(Clone, Copy, Debug, PartialEq, Eq, Structural)]
pub struct Amount {
    pub negative: bool,
    pub magnitude: u128,
    pub scale: u32,
}

pub open spec fn pow10(n: nat) -> int
    decreases n,
{
    if n == 0 {
        1
    } else {
        10 * pow10((n - 1) as nat)
    }
}

impl Amount {
    /// The representable range of a decimal.
    pub open spec fn wf(self) -> bool {
        self.magnitude <= MAX_MAGNITUDE && self.scale <= MAX_SCALE
    }

    /// Non-negative with at most four fractional digits: fit to move funds.
    pub open spec fn is_valid(self) -> bool {
        !self.negative && self.scale <= LEDGER_SCALE
    }

    /// The value in ten-thousandths; exact for amounts with scale at most four.
    pub open spec fn units(self) -> int {
        let m = self.magnitude as int * pow10((LEDGER_SCALE - self.scale) as nat);
        if self.negative {
            -m
        } else {
            m
        }
    }

    /// A valid amount is between zero and the largest mantissa times ten thousand.
    pub proof fn lemma_units_bounds(self)
        requires
            self.wf(),
            self.is_valid(),
        ensures
            0 <= self.units() <= MAX_MAGNITUDE * 10000,
    {
        reveal_with_fuel(pow10, 5);
        let f = pow10((LEDGER_SCALE - self.scale) as nat);
        assert(1 <= f <= 10000);
        assert(0 <= self.magnitude * f <= MAX_MAGNITUDE * 10000) by (nonlinear_arith)
            requires
                self.magnitude <= MAX_MAGNITUDE,
                1 <= f <= 10000,
        ;
    }

    /// The decimal `mantissa / 10^scale`.
    pub fn new(mantissa: i128, scale: u32) -> (r: Amount)
        requires
            -(MAX_MAGNITUDE as int) <= mantissa <= MAX_MAGNITUDE,
            scale <= MAX_SCALE,
        ensures
            r.wf(),
            r.negative == (mantissa < 0),
            r.magnitude == if mantissa < 0 { -mantissa } else { mantissa as int },
            r.scale == scale,
    {
        let magnitude: u128 = if mantissa < 0 {
            (-mantissa) as u128
        } else {
            mantissa as u128
        };
        Amount { negative: mantissa < 0, magnitude, scale }
    }

    /// The amount in ten-thousandths, for a valid amount.
    pub fn to_units(&self) -> (r: i128)
        requires
            self.wf(),
            self.is_valid(),
        ensures
            r == self.units(),
            0 <= r <= MAX_MAGNITUDE * 10000,
    {
        let factor: u128 = if self.scale == 0 {
            10000
        } else if self.scale == 1 {
            1000
        } else if self.scale == 2 {
            100
        } else if self.scale == 3 {
            10
        } else {
            1
        };
        proof {
            reveal_with_fuel(pow10, 5);
            assert(factor as int == pow10((LEDGER_SCALE - self.scale) as nat));
            assert(self.magnitude * factor <= MAX_MAGNITUDE * 10000) by (nonlinear_arith)
                requires
                    self.magnitude <= MAX_MAGNITUDE,
                    factor <= 10000,
            ;
        }
        (self.magnitude * factor) as i128
    }
}

/// True when the amount carries at most four fractional digits.
pub fn has_valid_precision(amount: &Amount) -> (r: bool)
    ensures
        r == (amount.scale <= LEDGER_SCALE),
{
    amount.scale <= LEDGER_SCALE
}

/// One decoded ledger event.
#[derive(Clone, Copy, Debug)]
pub struct Record {
    pub tx_type: TxType,
    pub client: ClientId,
    pub tx: TransactionId,
    pub amount: Option<Amount>,
}

impl Record {
    /// Its amount, where present, is a representable decimal.
    pub open spec fn wf(self) -> bool {
        match self.amount {
            Some(a) => a.wf(),
            None => true,
        }
    }
}

} // verus!
