//! An expense ledger: an ordered list of expenses with identifiers that are
//! never reused, the rules for loading it from a stored document, and the
//! command-line intents that act on it.

pub mod actions;
pub mod clock;
pub mod expense_repository;
pub mod models;
