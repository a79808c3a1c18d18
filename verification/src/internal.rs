//! The operations on the ledger: registration, deposit, unstake and
//! withdrawal, and the reward calculations that they fold in.

use vstd::prelude::*;
use crate::account::{Account, UpgradableAccount};
use crate::contract::StakingContract;
use crate::error::StakingError;
use crate::laws::{lemma_apply_keeps_stake_total, lemma_apply_keeps_staker_count, Operation};
use crate::ledger::LedgerState;
use crate::reward::{accrue, accrue_spec, effective_height};

verus! {

impl StakingContract {
    /// Creates the account record of `account_id`, zeroed, at the effective
    /// height for live height `block_index`. Rejected with
    /// `AlreadyRegistered` where the identity has a record.
    pub fn internal_register_account(
        &mut self,
        account_id: String,
        block_index: u64,
    ) -> (result: Result<(), StakingError>)
        ensures
            match result {
                Ok(()) => old(self)@.register(account_id@, block_index) == Ok::<
                    LedgerState,
                    StakingError,
                >(final(self)@),
                Err(e) => old(self)@.register(account_id@, block_index) == Err::<
                    LedgerState,
                    StakingError,
                >(e) && *final(self) == *old(self),
            },
            old(self)@.stake_is_consistent() ==> final(self)@.stake_is_consistent(),
            old(self)@.stakers_are_consistent() ==> final(self)@.stakers_are_consistent(),
    {
        if self.accounts.contains_key(account_id.as_str()) {
            return Err(StakingError::AlreadyRegistered);
        }
        proof {
            let operation = Operation::Register { id: account_id@, block_index };
            if self@.stake_is_consistent() {
                lemma_apply_keeps_stake_total(self@, operation);
            }
            if self@.stakers_are_consistent() {
                lemma_apply_keeps_staker_count(self@, operation);
            }
        }
        let height = effective_height(self.paused, self.pause_at_block, block_index);
        let account = Account::new(height);
        self.accounts.insert(account_id, UpgradableAccount::from(account));
        Ok(())
    }

    /// 1 where `account_id` has an account record, 0 where it has none.
    pub fn storage_balance_of(&self, account_id: String) -> (balance: u128)
        ensures
            balance == (if self@.is_registered(account_id@) {
                1u128
            } else {
                0u128
            }),
    {
        let account = self.accounts.get(account_id.as_str());
        if account.is_some() {
            1
        } else {
            0
        }
    }

    /// The reward that `account` has earned on its stake since its last
    /// accrual, up to the effective height for live height `block_index`.
    pub fn internal_calculate_account_reward(
        &self,
        account: &Account,
        block_index: u64,
    ) -> (reward: Result<u128, StakingError>)
        requires
            self.config.wf(),
        ensures
            reward == accrue_spec(
                account.stake_balance,
                account.last_block_balance_change,
                self@.height(block_index),
                self.config.reward_numerator,
                self.config.reward_demurator,
            ),
    {
        let lasted_block = effective_height(self.paused, self.pause_at_block, block_index);
        accrue(
            account.stake_balance,
            account.last_block_balance_change,
            lasted_block,
            self.config.reward_numerator,
            self.config.reward_demurator,
        )
    }

    /// The reward that the pool has earned on its staked total since its
    /// last accrual, up to the effective height for live height
    /// `block_index`.
    pub fn internal_calculate_pool_reward(
        &self,
        block_index: u64,
    ) -> (reward: Result<u128, StakingError>)
        requires
            self.config.wf(),
        ensures
            reward == accrue_spec(
                self.total_stake_balance,
                self.last_block_balance_change,
                self@.height(block_index),
                self.config.reward_numerator,
                self.config.reward_demurator,
            ),
    {
        let lasted_block = effective_height(self.paused, self.pause_at_block, block_index);
        accrue(
            self.total_stake_balance,
            self.last_block_balance_change,
            lasted_block,
            self.config.reward_numerator,
            self.config.reward_demurator,
        )
    }

    /// `account` with its reward folded up to the effective height for live
    /// height `block_index`.
    fn fold_account_reward(
        &self,
        account: Account,
        block_index: u64,
    ) -> (folded: Result<Account, StakingError>)
        requires
            self.config.wf(),
        ensures
            folded == account.accrued(self.config, self@.height(block_index)),
    {
        let new_reward = match self.internal_calculate_account_reward(&account, block_index) {
            Ok(reward) => reward,
            Err(e) => { return Err(e); },
        };
        match account.pre_reward.checked_add(new_reward) {
            Some(pre_reward) => Ok(
                Account {
                    pre_reward,
                    last_block_balance_change: effective_height(
                        self.paused,
                        self.pause_at_block,
                        block_index,
                    ),
                    ..account
                },
            ),
            None => Err(StakingError::ArithmeticOverflow),
        }
    }

    /// The pool's `pre_reward` with the pool-level reward folded up to the
    /// effective height for live height `block_index`.
    fn fold_pool_reward(&self, block_index: u64) -> (folded: Result<u128, StakingError>)
        requires
            self.config.wf(),
        ensures
            match folded {
                Ok(pre_reward) => self@.pool_accrued(self@.height(block_index)) == Ok::<
                    LedgerState,
                    StakingError,
                >(
                    LedgerState {
                        pre_reward,
                        last_block_balance_change: self@.height(block_index),
                        ..self@
                    },
                ),
                Err(e) => self@.pool_accrued(self@.height(block_index)) == Err::<
                    LedgerState,
                    StakingError,
                >(e),
            },
    {
        let new_contract_reward = match self.internal_calculate_pool_reward(block_index) {
            Ok(reward) => reward,
            Err(e) => { return Err(e); },
        };
        match self.pre_reward.checked_add(new_contract_reward) {
            Some(pre_reward) => Ok(pre_reward),
            None => Err(StakingError::ArithmeticOverflow),
        }
    }

    /// Adds `amount` to the stake of `account_id`, on behalf of the caller
    /// `predecessor_account_id`, at live height `block_index`.
    pub fn internal_deposit_and_stake(
        &mut self,
        account_id: String,
        amount: u128,
        predecessor_account_id: String,
        block_index: u64,
    ) -> (result: Result<(), StakingError>)
        requires
            old(self).config.wf(),
        ensures
            match result {
                Ok(()) => old(self)@.deposit_and_stake(
                    account_id@,
                    amount,
                    predecessor_account_id@,
                    block_index,
                ) == Ok::<LedgerState, StakingError>(final(self)@),
                Err(e) => old(self)@.deposit_and_stake(
                    account_id@,
                    amount,
                    predecessor_account_id@,
                    block_index,
                ) == Err::<LedgerState, StakingError>(e) && *final(self) == *old(self),
            },
            old(self)@.stake_is_consistent() ==> final(self)@.stake_is_consistent(),
            amount > 0 && old(self)@.stakers_are_consistent()
                ==> final(self)@.stakers_are_consistent(),
    {
        proof {
            let operation = Operation::DepositAndStake {
                id: account_id@,
                amount,
                caller: predecessor_account_id@,
                block_index,
            };
            if self@.stake_is_consistent() {
                lemma_apply_keeps_stake_total(self@, operation);
            }
            if amount > 0 && self@.stakers_are_consistent() {
                lemma_apply_keeps_staker_count(self@, operation);
            }
        }
        let upgradable_account = match self.accounts.get(account_id.as_str()) {
            Some(record) => *record,
            None => { return Err(StakingError::AccountNotFound); },
        };
        if self.paused {
            return Err(StakingError::ContractPaused);
        }
        if !(self.ft_contract_id == predecessor_account_id) {
            return Err(StakingError::UnauthorizedCaller);
        }
        let before = Account::from(upgradable_account);
        let account = match self.fold_account_reward(before, block_index) {
            Ok(account) => account,
            Err(e) => { return Err(e); },
        };
        let pre_reward = match self.fold_pool_reward(block_index) {
            Ok(pre_reward) => pre_reward,
            Err(e) => { return Err(e); },
        };
        let stake_balance = match account.stake_balance.checked_add(amount) {
            Some(stake_balance) => stake_balance,
            None => { return Err(StakingError::ArithmeticOverflow); },
        };
        let total_stake_balance = match self.total_stake_balance.checked_add(amount) {
            Some(total_stake_balance) => total_stake_balance,
            None => { return Err(StakingError::ArithmeticOverflow); },
        };
        let total_stakers = if before.stake_balance == 0 {
            match self.total_stakers.checked_add(1) {
                Some(total_stakers) => total_stakers,
                None => { return Err(StakingError::ArithmeticOverflow); },
            }
        } else {
            self.total_stakers
        };

        self.accounts.insert(
            account_id,
            UpgradableAccount::from(Account { stake_balance, ..account }),
        );
        self.total_stakers = total_stakers;
        self.total_stake_balance = total_stake_balance;
        self.pre_reward = pre_reward;
        self.last_block_balance_change = effective_height(
            self.paused,
            self.pause_at_block,
            block_index,
        );
        Ok(())
    }

    /// Moves `amount` from the stake of `account_id` into its unstaked
    /// balance, at live height `block_index`, and starts the lock-up of the
    /// whole unstaked balance anew at `block_timestamp` and `epoch_height`.
    pub fn internal_unstake(
        &mut self,
        account_id: String,
        amount: u128,
        block_index: u64,
        block_timestamp: u64,
        epoch_height: u64,
    ) -> (result: Result<(), StakingError>)
        requires
            old(self).config.wf(),
        ensures
            match result {
                Ok(()) => old(self)@.unstake(
                    account_id@,
                    amount,
                    block_index,
                    block_timestamp,
                    epoch_height,
                ) == Ok::<LedgerState, StakingError>(final(self)@),
                Err(e) => old(self)@.unstake(
                    account_id@,
                    amount,
                    block_index,
                    block_timestamp,
                    epoch_height,
                ) == Err::<LedgerState, StakingError>(e) && *final(self) == *old(self),
            },
            old(self)@.stake_is_consistent() ==> final(self)@.stake_is_consistent(),
            amount > 0 && old(self)@.stakers_are_consistent()
                ==> final(self)@.stakers_are_consistent(),
    {
        proof {
            let operation = Operation::Unstake {
                id: account_id@,
                amount,
                block_index,
                block_timestamp,
                epoch_height,
            };
            if self@.stake_is_consistent() {
                lemma_apply_keeps_stake_total(self@, operation);
            }
            if amount > 0 && self@.stakers_are_consistent() {
                lemma_apply_keeps_staker_count(self@, operation);
            }
        }
        let upgradable_account = match self.accounts.get(account_id.as_str()) {
            Some(record) => *record,
            None => { return Err(StakingError::AccountNotFound); },
        };
        let before = Account::from(upgradable_account);
        if amount > before.stake_balance {
            return Err(StakingError::InsufficientStake);
        }
        let account = match self.fold_account_reward(before, block_index) {
            Ok(account) => account,
            Err(e) => { return Err(e); },
        };
        let pre_reward = match self.fold_pool_reward(block_index) {
            Ok(pre_reward) => pre_reward,
            Err(e) => { return Err(e); },
        };
        let stake_balance = account.stake_balance - amount;
        let unstake_balance = match account.unstake_balance.checked_add(amount) {
            Some(unstake_balance) => unstake_balance,
            None => { return Err(StakingError::ArithmeticOverflow); },
        };
        let total_stake_balance = match self.total_stake_balance.checked_sub(amount) {
            Some(total_stake_balance) => total_stake_balance,
            None => { return Err(StakingError::ArithmeticOverflow); },
        };
        let total_stakers = if stake_balance == 0 {
            match self.total_stakers.checked_sub(1) {
                Some(total_stakers) => total_stakers,
                None => { return Err(StakingError::ArithmeticOverflow); },
            }
        } else {
            self.total_stakers
        };

        self.accounts.insert(
            account_id,
            UpgradableAccount::from(
                Account {
                    stake_balance,
                    unstake_balance,
                    unstake_start_timestamp: block_timestamp,
                    unstake_available_epoch: epoch_height,
                    ..account
                },
            ),
        );
        self.total_stakers = total_stakers;
        self.pre_reward = pre_reward;
        self.last_block_balance_change = effective_height(
            self.paused,
            self.pause_at_block,
            block_index,
        );
        self.total_stake_balance = total_stake_balance;
        Ok(())
    }

    /// Pays out the unstaked balance of `account_id` at epoch
    /// `epoch_height`: returns the account as it was before, for the caller
    /// to transfer `unstake_balance`, and clears the account's lock-up
    /// fields. The stake, the accrued reward and the height of the last
    /// accrual stay as they are.
    pub fn internal_widthraw(
        &mut self,
        account_id: String,
        epoch_height: u64,
    ) -> (result: Result<Account, StakingError>)
        ensures
            match result {
                Ok(account) => old(self)@.withdraw(account_id@, epoch_height) == Ok::<
                    (LedgerState, Account),
                    StakingError,
                >((final(self)@, account)),
                Err(e) => old(self)@.withdraw(account_id@, epoch_height) == Err::<
                    (LedgerState, Account),
                    StakingError,
                >(e) && *final(self) == *old(self),
            },
            old(self)@.stake_is_consistent() ==> final(self)@.stake_is_consistent(),
            old(self)@.stakers_are_consistent() ==> final(self)@.stakers_are_consistent(),
    {
        proof {
            let operation = Operation::Withdraw { id: account_id@, epoch_height };
            if self@.stake_is_consistent() {
                lemma_apply_keeps_stake_total(self@, operation);
            }
            if self@.stakers_are_consistent() {
                lemma_apply_keeps_staker_count(self@, operation);
            }
        }
        let upgradable_account = match self.accounts.get(account_id.as_str()) {
            Some(record) => *record,
            None => { return Err(StakingError::AccountNotFound); },
        };
        let account = Account::from(upgradable_account);
        if account.unstake_balance == 0 {
            return Err(StakingError::NothingToWithdraw);
        }
        if epoch_height < account.unstake_available_epoch {
            return Err(StakingError::LockupNotElapsed);
        }
        let new_account = Account {
            unstake_balance: 0,
            unstake_start_timestamp: 0,
            unstake_available_epoch: 0,
            ..account
        };
        self.accounts.insert(account_id, UpgradableAccount::from(new_account));
        Ok(account)
    }
}

} // verus!
