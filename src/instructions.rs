//! The six operations of the vault, each on the records it reads and writes.
pub mod initialize_config;
pub mod deposit;
pub mod trigger_panic;
pub mod initiate_recovery;
pub mod approve_recovery;
pub mod claim_from_vault;

pub use initialize_config::InitializeConfig;
pub use deposit::Deposit;
pub use trigger_panic::TriggerPanic;
pub use initiate_recovery::InitiateRecovery;
pub use approve_recovery::ApproveRecovery;
pub use claim_from_vault::ClaimFromVault;
