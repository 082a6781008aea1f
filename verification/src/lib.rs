//! A minimal escrow ledger.
//!
//! A client deposits intent to pay a freelancer a fixed positive amount;
//! the client alone may later authorize release. The ledger allocates
//! strictly increasing identifiers starting at 1, stores one record per
//! identifier, and answers lookups. The surrounding host is responsible
//! for durable storage and caller authentication; the ledger itself is
//! pure request/response logic over its own state.

pub mod escrow;
pub mod ledger;
