//! A verified ledger of scholarship disbursements: one administrator releases
//! amounts to students, and the ledger keeps per-student profiles, one record
//! per scholarship and running totals consistent with each other.

mod address;
mod types;
pub mod rules;
pub mod model;
mod ledger;
pub mod laws;

pub use address::Address;
pub use ledger::ScholarshipContract;
pub use types::{
    ContractError, ContractStats, DataKey, ProfileView, RecordView, ScholarshipRecord,
    StorageTier, StudentProfile,
};
