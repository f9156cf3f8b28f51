//! A machine-managed notes ledger: an ordered list of titled note entries,
//! rendered deterministically to a markdown section, updated by add/remove
//! commands, and persisted together with its rendering as one atomic unit.

pub mod dispatch;
pub mod entry;
pub mod errors;
pub mod ledger;
pub mod store;
