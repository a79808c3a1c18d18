//! The ledger as a mathematical value, and what each operation makes of it.
//!
//! `LedgerState` is the view of a `StakingContract`. Every operation is a
//! function from a state and the operation's arguments to the next state or
//! to the error it is rejected with.

use vstd::prelude::*;
use crate::account::{Account, UpgradableAccount};
use crate::config::Config;
use crate::error::StakingError;
use crate::reward::{accrue_spec, effective_height_spec};
use crate::sum::map_sum;

verus! {

/// The state of a ledger: the pool aggregate, the pause gate and the
/// account records by identity.
#[verifier::ext_equal]
pub struct LedgerState {
    pub owner_id: Seq<char>,
    pub ft_contract_id: Seq<char>,
    pub config: Config,
    pub total_stake_balance: u128,
    pub total_paid_reward_balance: u128,
    pub total_stakers: u128,
    pub pre_reward: u128,
    pub last_block_balance_change: u64,
    pub accounts: Map<Seq<char>, UpgradableAccount>,
    pub paused: bool,
    pub pause_at_block: u64,
    pub new_data: u128,
}

/// What an account record weighs in the staked total.
pub open spec fn stake_weight() -> spec_fn(UpgradableAccount) -> nat {
    |record: UpgradableAccount| record.upgraded().stake_balance as nat
}

/// What an account record weighs in the number of stakers.
pub open spec fn staker_weight() -> spec_fn(UpgradableAccount) -> nat {
    |record: UpgradableAccount|
        if record.upgraded().stake_balance > 0 {
            1nat
        } else {
            0nat
        }
}

impl LedgerState {
    /// A new ledger, created at height `block_index`: nothing staked, no
    /// account, not paused.
    pub open spec fn initial(
        owner_id: Seq<char>,
        ft_contract_id: Seq<char>,
        config: Config,
        block_index: u64,
    ) -> LedgerState {
        LedgerState {
            owner_id,
            ft_contract_id,
            config,
            total_stake_balance: 0,
            total_paid_reward_balance: 0,
            total_stakers: 0,
            pre_reward: 0,
            last_block_balance_change: block_index,
            accounts: Map::empty(),
            paused: false,
            pause_at_block: 0,
            new_data: 0,
        }
    }

    /// The height that accrual runs up to when the live height is
    /// `block_index`.
    pub open spec fn height(self, block_index: u64) -> u64 {
        effective_height_spec(self.paused, self.pause_at_block, block_index)
    }

    /// Whether `id` has an account record.
    pub open spec fn is_registered(self, id: Seq<char>) -> bool {
        self.accounts.contains_key(id)
    }

    /// The account record of `id`, in the current shape.
    pub open spec fn account(self, id: Seq<char>) -> Account {
        self.accounts[id].upgraded()
    }

    /// The sum of the stakes of all accounts.
    pub open spec fn total_staked(self) -> nat {
        map_sum(self.accounts, stake_weight())
    }

    /// The number of accounts with a stake above zero.
    pub open spec fn staker_count(self) -> nat {
        map_sum(self.accounts, staker_weight())
    }

    /// The pool's staked total is the sum of the accounts' stakes.
    pub open spec fn stake_is_consistent(self) -> bool {
        &&& self.accounts.dom().finite()
        &&& self.total_stake_balance == self.total_staked()
    }

    /// The pool's number of stakers is the number of accounts with a stake
    /// above zero.
    pub open spec fn stakers_are_consistent(self) -> bool {
        &&& self.accounts.dom().finite()
        &&& self.total_stakers == self.staker_count()
    }

    /// The pool aggregate with the pool-level reward up to `height` folded
    /// into `pre_reward`, or the error that the accrual fails with.
    pub open spec fn pool_accrued(self, height: u64) -> Result<LedgerState, StakingError> {
        match accrue_spec(
            self.total_stake_balance,
            self.last_block_balance_change,
            height,
            self.config.reward_numerator,
            self.config.reward_demurator,
        ) {
            Err(e) => Err(e),
            Ok(reward) => if self.pre_reward + reward > u128::MAX {
                Err(StakingError::ArithmeticOverflow)
            } else {
                Ok(
                    LedgerState {
                        pre_reward: (self.pre_reward + reward) as u128,
                        last_block_balance_change: height,
                        ..self
                    },
                )
            },
        }
    }

    /// Registration of `id` at live height `block_index`: rejected where
    /// `id` has a record, else `id` gets a zeroed record at the effective
    /// height.
    pub open spec fn register(
        self,
        id: Seq<char>,
        block_index: u64,
    ) -> Result<LedgerState, StakingError> {
        if self.is_registered(id) {
            Err(StakingError::AlreadyRegistered)
        } else {
            Ok(
                LedgerState {
                    accounts: self.accounts.insert(
                        id,
                        UpgradableAccount::Current(Account::zeroed(self.height(block_index))),
                    ),
                    ..self
                },
            )
        }
    }

    /// A deposit of `amount` into the stake of `id`, announced by `caller`
    /// at live height `block_index`.
    ///
    /// Rejected, in this order, where `id` has no record, the ledger is
    /// paused, `caller` is not the token contract, an accrual fails, or a
    /// balance or the number of stakers would overflow. Else the account's
    /// and the pool's reward are folded up to the effective height, `amount`
    /// is added to the account's stake and to the pool's total, and the
    /// number of stakers grows by one if the account had no stake.
    pub open spec fn deposit_and_stake(
        self,
        id: Seq<char>,
        amount: u128,
        caller: Seq<char>,
        block_index: u64,
    ) -> Result<LedgerState, StakingError> {
        if !self.is_registered(id) {
            Err(StakingError::AccountNotFound)
        } else if self.paused {
            Err(StakingError::ContractPaused)
        } else if caller != self.ft_contract_id {
            Err(StakingError::UnauthorizedCaller)
        } else {
            let height = self.height(block_index);
            let before = self.account(id);
            match (before.accrued(self.config, height), self.pool_accrued(height)) {
                (Err(e), _) => Err(e),
                (Ok(_), Err(e)) => Err(e),
                (Ok(account), Ok(pool)) => {
                    if account.stake_balance + amount > u128::MAX || pool.total_stake_balance
                        + amount > u128::MAX || (before.stake_balance == 0 && pool.total_stakers
                        + 1 > u128::MAX) {
                        Err(StakingError::ArithmeticOverflow)
                    } else {
                        Ok(
                            LedgerState {
                                accounts: self.accounts.insert(
                                    id,
                                    UpgradableAccount::Current(
                                        Account {
                                            stake_balance: (account.stake_balance + amount) as u128,
                                            ..account
                                        },
                                    ),
                                ),
                                total_stake_balance: (pool.total_stake_balance + amount) as u128,
                                total_stakers: if before.stake_balance == 0 {
                                    (pool.total_stakers + 1) as u128
                                } else {
                                    pool.total_stakers
                                },
                                ..pool
                            },
                        )
                    }
                },
            }
        }
    }

    /// A move of `amount` from the stake of `id` into its unstaked balance,
    /// at live height `block_index`, timestamp `block_timestamp` and epoch
    /// `epoch_height`.
    ///
    /// Rejected, in this order, where `id` has no record, `amount` is more
    /// than the stake, an accrual fails, or a balance or the number of
    /// stakers would leave its range. Else the account's and the pool's
    /// reward are folded up to the effective height, `amount` moves from the
    /// stake to the unstaked balance and leaves the pool's total, the
    /// lock-up of the whole unstaked balance starts anew at
    /// `block_timestamp` and `epoch_height`, and the number of stakers
    /// shrinks by one if no stake is left.
    pub open spec fn unstake(
        self,
        id: Seq<char>,
        amount: u128,
        block_index: u64,
        block_timestamp: u64,
        epoch_height: u64,
    ) -> Result<LedgerState, StakingError> {
        if !self.is_registered(id) {
            Err(StakingError::AccountNotFound)
        } else if amount > self.account(id).stake_balance {
            Err(StakingError::InsufficientStake)
        } else {
            let height = self.height(block_index);
            match (self.account(id).accrued(self.config, height), self.pool_accrued(height)) {
                (Err(e), _) => Err(e),
                (Ok(_), Err(e)) => Err(e),
                (Ok(account), Ok(pool)) => {
                    let left = (account.stake_balance - amount) as u128;
                    if account.unstake_balance + amount > u128::MAX || pool.total_stake_balance
                        < amount || (left == 0 && pool.total_stakers == 0) {
                        Err(StakingError::ArithmeticOverflow)
                    } else {
                        Ok(
                            LedgerState {
                                accounts: self.accounts.insert(
                                    id,
                                    UpgradableAccount::Current(
                                        Account {
                                            stake_balance: left,
                                            unstake_balance: (account.unstake_balance
                                                + amount) as u128,
                                            unstake_start_timestamp: block_timestamp,
                                            unstake_available_epoch: epoch_height,
                                            ..account
                                        },
                                    ),
                                ),
                                total_stake_balance: (pool.total_stake_balance - amount) as u128,
                                total_stakers: if left == 0 {
                                    (pool.total_stakers - 1) as u128
                                } else {
                                    pool.total_stakers
                                },
                                ..pool
                            },
                        )
                    }
                },
            }
        }
    }

    /// A withdrawal of the unstaked balance of `id` at epoch `epoch_height`.
    ///
    /// Rejected, in this order, where `id` has no record, nothing is
    /// unstaked, or the lock-up has not ended. Else the result is the next
    /// state, in which the account's lock-up fields are cleared, and the
    /// account as it was before.
    pub open spec fn withdraw(
        self,
        id: Seq<char>,
        epoch_height: u64,
    ) -> Result<(LedgerState, Account), StakingError> {
        if !self.is_registered(id) {
            Err(StakingError::AccountNotFound)
        } else if self.account(id).unstake_balance == 0 {
            Err(StakingError::NothingToWithdraw)
        } else if epoch_height < self.account(id).unstake_available_epoch {
            Err(StakingError::LockupNotElapsed)
        } else {
            Ok(
                (
                    LedgerState {
                        accounts: self.accounts.insert(
                            id,
                            UpgradableAccount::Current(self.account(id).withdrawn()),
                        ),
                        ..self
                    },
                    self.account(id),
                ),
            )
        }
    }
}

} // verus!
