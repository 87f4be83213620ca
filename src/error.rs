use vstd::prelude::*;

use crate::models::TransactionId;

verus! {

/// Why an event could not be applied to the ledger.
#[derive(Debug)]
pub enum EngineErr {
    /// The transaction id was already committed, or is already under dispute.
    DuplicateTx(TransactionId),
    /// The referenced transaction or account is unknown, or not eligible.
    UnknownAccount(TransactionId),
    /// The balance does not cover the debit, hold or release.
    InsufficientFunds,
    /// The amount is missing, negative, or has more than four fractional digits.
    Precision,
    /// The account was frozen by a chargeback.
    AccountLocked,
    /// An input record could not be decoded.
    DeserializationError(String),
    /// The final report could not be written.
    CsvWriteError(String),
}

} // verus!
