//! Lending consistency engine of a multi-tenant library service: a per-tenant
//! mirror of the books on loan, a wrapping transaction-id generator and the
//! borrow/return protocol that keeps them in step with the persisted records.
//!
//! - `cache`: the mirror of loans, rebuilt from the stored members at start-up.
//! - `transaction`: the ring counter of ledger ids and the ledger rows.
//! - `lending`: the borrow and return protocol, as validation steps that prepare
//!   a plan and commit machines that order the writes and touch the mirror last.
//! - `registry`: the tenants a process serves.
//! - `laws`: what holds across calls: the mirror agrees with the members' loans,
//!   a book is not lent twice, the limit holds, the counter walks its ring.
//! - `clock`, `overdue`: wall-clock stamps of loans and overdue listings.
//! - `work`, `barcode`, `query`, `edit`, `setting`, `history`, `user_search`,
//!   `book_search`: counter requests and the other inputs the service reads.
//! - `error`, `item`: failures and the records.

pub mod barcode;
pub mod book_search;
pub mod cache;
pub mod clock;
pub mod edit;
pub mod error;
pub mod history;
pub mod item;
pub mod laws;
pub mod lending;
pub mod overdue;
pub mod query;
pub mod registry;
pub mod setting;
pub mod transaction;
pub mod user_search;
pub mod work;
