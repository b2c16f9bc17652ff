//! The records that the vault keeps for each owner.
pub mod panic_config;
pub mod vault;
pub mod compromised_flag;
pub mod attacker_flag;
pub mod alert_account;

pub use panic_config::PanicConfig;
pub use vault::Vault;
pub use compromised_flag::CompromisedFlag;
pub use attacker_flag::AttackerFlag;
pub use alert_account::AlertAccount;
