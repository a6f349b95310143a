//! Conversion of ledger entities into the messages of the wire schema.
pub mod common;
