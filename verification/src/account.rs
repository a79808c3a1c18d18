//! Account records, in the shape they are stored in now and in the shape
//! they were stored in before, and the upgrade from one to the other.

use vstd::prelude::*;
use vstd::std_specs::convert::FromSpecImpl;
use crate::config::Config;
use crate::error::StakingError;
use crate::reward::{accrue_spec, lemma_accrue_zero_elapsed};

verus! {

/// What `new_account_data` holds in a record that was created in the current
/// shape or upgraded to it.
pub const NEW_ACCOUNT_DATA: u128 = 10;

/// An account record in the shape that came before `Account`.
#[derive(Clone, Copy, Debug, PartialEq, Eq, Structural)]
pub struct AccountV1 {
    pub stake_balance: u128,
    pub pre_reward: u128,
    pub last_block_balance_change: u64,
    pub unstake_balance: u128,
    pub unstake_start_timestamp: u64,
    pub unstake_available_epoch: u64,
}

/// The record of one staking identity.
#[derive(Clone, Copy, Debug, PartialEq, Eq, Structural)]
pub struct Account {
    /// The amount that is staked and earns reward.
    pub stake_balance: u128,
    /// The reward that has accrued and has not been paid out.
    pub pre_reward: u128,
    /// The height up to which reward has been folded into `pre_reward`.
    pub last_block_balance_change: u64,
    /// The amount that has left the stake and waits for its lock-up to end.
    pub unstake_balance: u128,
    /// The timestamp of the last unstake.
    pub unstake_start_timestamp: u64,
    /// The epoch from which `unstake_balance` can be withdrawn.
    pub unstake_available_epoch: u64,
    /// A field that records of the earlier shape do not have.
    pub new_account_data: u128,
}

/// An account record as the store holds it: in either shape.
#[derive(Clone, Copy, Debug, PartialEq, Eq, Structural)]
pub enum UpgradableAccount {
    V1(AccountV1),
    Current(Account),
}

impl Account {
    /// The record of an identity that has just registered at `height`.
    pub open spec fn zeroed(height: u64) -> Account {
        Account {
            stake_balance: 0,
            pre_reward: 0,
            last_block_balance_change: height,
            unstake_balance: 0,
            unstake_start_timestamp: 0,
            unstake_available_epoch: 0,
            new_account_data: NEW_ACCOUNT_DATA,
        }
    }

    /// The record of an identity that has just registered at `height`.
    pub fn new(height: u64) -> (account: Account)
        ensures
            account == Account::zeroed(height),
    {
        Account {
            stake_balance: 0,
            pre_reward: 0,
            last_block_balance_change: height,
            unstake_balance: 0,
            unstake_start_timestamp: 0,
            unstake_available_epoch: 0,
            new_account_data: NEW_ACCOUNT_DATA,
        }
    }

    /// This record with the reward up to `height` folded into `pre_reward`,
    /// or the error that the accrual fails with.
    pub open spec fn accrued(self, config: Config, height: u64) -> Result<Account, StakingError> {
        match accrue_spec(
            self.stake_balance,
            self.last_block_balance_change,
            height,
            config.reward_numerator,
            config.reward_demurator,
        ) {
            Err(e) => Err(e),
            Ok(reward) => if self.pre_reward + reward > u128::MAX {
                Err(StakingError::ArithmeticOverflow)
            } else {
                Ok(
                    Account {
                        pre_reward: (self.pre_reward + reward) as u128,
                        last_block_balance_change: height,
                        ..self
                    },
                )
            },
        }
    }

    /// This record once its pending unstake has been paid out: the lock-up
    /// fields are cleared and everything else stays.
    pub open spec fn withdrawn(self) -> Account {
        Account {
            unstake_balance: 0,
            unstake_start_timestamp: 0,
            unstake_available_epoch: 0,
            ..self
        }
    }
}

impl AccountV1 {
    /// This record in the current shape: every field it has is kept, and
    /// `new_account_data` is `NEW_ACCOUNT_DATA`.
    pub open spec fn upgraded(self) -> Account {
        Account {
            stake_balance: self.stake_balance,
            pre_reward: self.pre_reward,
            last_block_balance_change: self.last_block_balance_change,
            unstake_balance: self.unstake_balance,
            unstake_start_timestamp: self.unstake_start_timestamp,
            unstake_available_epoch: self.unstake_available_epoch,
            new_account_data: NEW_ACCOUNT_DATA,
        }
    }
}

impl UpgradableAccount {
    /// This record in the current shape.
    pub open spec fn upgraded(self) -> Account {
        match self {
            UpgradableAccount::V1(old) => old.upgraded(),
            UpgradableAccount::Current(account) => account,
        }
    }

    /// Brings a stored record to the current shape. A record of the earlier
    /// shape keeps every field it has and gets `NEW_ACCOUNT_DATA` in the
    /// new one; a record of the current shape is returned as it is.
    pub fn upgrade(self) -> (account: Account)
        ensures
            account == self.upgraded(),
    {
        match self {
            UpgradableAccount::V1(old) => Account {
                stake_balance: old.stake_balance,
                pre_reward: old.pre_reward,
                last_block_balance_change: old.last_block_balance_change,
                unstake_balance: old.unstake_balance,
                unstake_start_timestamp: old.unstake_start_timestamp,
                unstake_available_epoch: old.unstake_available_epoch,
                new_account_data: NEW_ACCOUNT_DATA,
            },
            UpgradableAccount::Current(account) => account,
        }
    }
}

impl From<UpgradableAccount> for Account {
    fn from(record: UpgradableAccount) -> (account: Account) {
        record.upgrade()
    }
}

impl FromSpecImpl<UpgradableAccount> for Account {
    open spec fn obeys_from_spec() -> bool {
        true
    }

    open spec fn from_spec(record: UpgradableAccount) -> Account {
        record.upgraded()
    }
}

impl From<Account> for UpgradableAccount {
    fn from(account: Account) -> (record: UpgradableAccount) {
        UpgradableAccount::Current(account)
    }
}

impl FromSpecImpl<Account> for UpgradableAccount {
    open spec fn obeys_from_spec() -> bool {
        true
    }

    open spec fn from_spec(account: Account) -> UpgradableAccount {
        UpgradableAccount::Current(account)
    }
}

/// The upgrade keeps every field of a record of the earlier shape and sets
/// the new field to its default.
pub proof fn lemma_upgrade_keeps_fields(old: AccountV1)
    ensures
        UpgradableAccount::V1(old).upgraded().stake_balance == old.stake_balance,
        UpgradableAccount::V1(old).upgraded().pre_reward == old.pre_reward,
        UpgradableAccount::V1(old).upgraded().last_block_balance_change
            == old.last_block_balance_change,
        UpgradableAccount::V1(old).upgraded().unstake_balance == old.unstake_balance,
        UpgradableAccount::V1(old).upgraded().unstake_start_timestamp
            == old.unstake_start_timestamp,
        UpgradableAccount::V1(old).upgraded().unstake_available_epoch
            == old.unstake_available_epoch,
        UpgradableAccount::V1(old).upgraded().new_account_data == NEW_ACCOUNT_DATA,
{
}

/// Upgrading twice gives what upgrading once gives: a record that has been
/// upgraded and stored again comes back unchanged.
pub proof fn lemma_upgrade_idempotent(record: UpgradableAccount)
    ensures
        UpgradableAccount::Current(record.upgraded()).upgraded() == record.upgraded(),
{
}

/// Once the reward has been folded up to a height, folding up to the same
/// height again changes nothing.
pub proof fn lemma_accrual_settles(account: Account, config: Config, height: u64)
    requires
        config.wf(),
        account.accrued(config, height) is Ok,
    ensures
        account.accrued(config, height)->Ok_0.accrued(config, height) == account.accrued(
            config,
            height,
        ),
{
    lemma_accrue_zero_elapsed(
        account.stake_balance,
        height,
        config.reward_numerator,
        config.reward_demurator,
    );
}

} // verus!
