//! A ledger of per-user virtual-currency balances.
//!
//! Each user owns one account holding a balance and a banker flag. Money moves
//! between accounts only by transfers, which conserve the total, and by
//! privileged adjustments, which only a banker may make. Every write goes
//! through a versioned compare-and-update, so a stale read can never be
//! committed.
//!
//! - `economy_state`: the account record and partial updates of it.
//! - `store`: an in-memory account store with versioned writes.
//! - `ledger`: the operations, planned on accounts as read and run on a store.
//! - `session`: the same operations as a state machine, for a driver that
//!   talks to an outside store and the identity service.
//! - `users`: answers of the identity service.
//! - `responses`: errors, their categories and their HTTP statuses.
//! - `laws`: what holds of every run of the ledger.
pub mod economy_state;
pub mod laws;
pub mod ledger;
pub mod responses;
pub mod session;
pub mod store;
pub mod user_state;
pub mod users;
