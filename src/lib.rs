//! An on-ledger escrow: a relayer releases or refunds funds that a payer
//! deposited for a named recipient.
//!
//! The ledger itself is a pure state machine. Moving value is the host's
//! work: each operation is first prepared (which validates it and names the
//! transfer that is due), the host performs that transfer, and the outcome is
//! then committed (which re-validates and advances the record only when the
//! transfer went through).
pub mod amount;
pub mod types;
pub mod ledger;
pub mod laws;
