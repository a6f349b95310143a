//! Checkpoint data of a ledger, acquired and converted.
//!
//! `checkpoint_handler` turns one sequence number into the checkpoint's full
//! record: it decides what to ask of the remote read API and what to make of
//! the answers, and leaves the asking to the caller. `convert` turns ledger
//! entities into the messages of the wire schema in `pb`.
pub mod checkpoint_handler;
pub mod chunking;
pub mod convert;
pub mod correlation;
pub mod encoding;
pub mod fault;
pub mod laws;
pub mod objects;
pub mod pb;
pub mod protocol;
pub mod types;
pub mod values;
