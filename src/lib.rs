//! A charity-donation ledger: a platform record, rescue-dog records and
//! donation receipts, with the operations that create and update them.

pub mod error;
pub mod identity;
pub mod laws;
pub mod ledger;
pub mod state;
pub mod text;
