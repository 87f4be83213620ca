//! A ledger of client accounts driven by an ordered stream of deposit,
//! withdrawal, dispute, resolve and chargeback events.

pub mod account;
pub mod engine;
pub mod error;
pub mod lemmas;
pub mod models;
