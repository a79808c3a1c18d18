//! A staking-reward ledger: stake deposits, height-proportional reward
//! accrual, and unstake/withdraw with a lock-up delay.

pub mod account;
pub mod config;
pub mod contract;
pub mod error;
pub mod internal;
pub mod laws;
pub mod ledger;
pub mod reward;
pub mod sum;

pub use account::{Account, AccountV1, UpgradableAccount};
pub use config::Config;
pub use contract::{StakingContract, StakingContractV1, StorageKey};
pub use error::StakingError;
