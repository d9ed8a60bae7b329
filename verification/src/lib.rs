//! Verified decision logic of the MentorsMind contract suite.
#![allow(unused_imports)]

pub mod hashing;
pub mod types;
pub mod gas_estimation;
pub mod governance;
pub mod treasury;
pub mod collateral_loan;
pub mod oracle;
pub mod upgrade_registry;
pub mod reputation;
pub mod session_registry;
pub mod shared_error;
pub mod pause_guard;
pub mod proof_of_personhood;
pub mod zk_audit;
pub mod scheduling_integrity;
pub mod validation;
pub mod kyc_registry;
