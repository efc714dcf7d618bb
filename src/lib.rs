//! Accounting and allocation core of a pooled-capital yield vault: the vault
//! ledger, the strategy router and the two simulated strategies.
//!
//! Each component is a plain value whose entry points take the calling
//! address, the block time and any attached amount as arguments. A rejected
//! call returns an error and leaves the component as it was; a withdrawal
//! updates the ledger and returns the amount that the host then transfers.
//! Each component appends the records it emits to its own `events` log.
pub mod access;
pub mod amount;
pub mod deployment;
pub mod errors;
pub mod events;
pub mod ledger;
pub mod router;
pub mod strategies;
pub mod types;
pub mod vault;
