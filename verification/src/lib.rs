//! A local account ledger: accounts with non-negative balances in minor
//! currency units, users identified by a credential pair, an ordered store of
//! users, and the service that signs users up, logs them in and applies
//! deposits and withdrawals to the stored records.
//!
//! The library is pure: reading and writing the backing medium is the
//! caller's business, which hands in what it read and takes back what it is
//! to write.
//!
//! - `account`: the balance and its two operations.
//! - `user`: credentials, and the user that owns an account.
//! - `store`: the ordered collection of users and the records it is kept in.
//! - `ledger`: sign-up, login and transactions over a snapshot of the store.
//! - `menu`, `amount`: the two menus, and the amounts that a user types.
//! - `identifier`: where fresh account numbers come from.
//! - `error`: the ways in which the ledger can fail.

pub mod account;
pub mod amount;
pub mod error;
pub mod identifier;
pub mod ledger;
pub mod menu;
pub mod store;
pub mod user;
