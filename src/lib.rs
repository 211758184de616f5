//! A proof-of-existence ledger: accounts register opaque claim digests,
//! and the current owner of a claim may revoke it or hand it to another account.

pub mod laws;
pub mod ledger;
pub mod model;
pub mod types;

pub use ledger::Pallet;
pub use types::{Error, Event, OwnershipRecord};
