//! The ledger itself: the pool aggregate, the pause gate and the account
//! store, owned by one value that every operation goes through.

use vstd::prelude::*;
use vstd::hash_map::StringHashMap;
use crate::account::{Account, UpgradableAccount};
use crate::config::Config;
use crate::error::StakingError;
use crate::ledger::LedgerState;

verus! {

/// What `new_data` holds in a ledger that was migrated from the earlier
/// layout.
pub const MIGRATED_NEW_DATA: u128 = 10;

/// The parts of a ledger that a host stores under a key of their own.
#[derive(Clone, Copy, Debug, PartialEq, Eq, Structural)]
pub enum StorageKey {
    /// The account records.
    AccountKey,
}

/// A ledger in the layout that came before `StakingContract`.
pub struct StakingContractV1 {
    pub owner_id: String,
    pub ft_contract_id: String,
    pub config: Config,
    pub total_stake_balance: u128,
    pub total_paid_reward_balance: u128,
    pub total_stakers: u128,
    pub pre_reward: u128,
    pub last_block_balance_change: u64,
    pub accounts: StringHashMap<UpgradableAccount>,
    pub paused: bool,
    pub pause_at_block: u64,
}

/// A staking ledger.
pub struct StakingContract {
    /// The identity that owns the ledger.
    pub owner_id: String,
    /// The token contract: the one caller whose deposits are accepted.
    pub ft_contract_id: String,
    /// The reward rate.
    pub config: Config,
    /// The sum of all stakes.
    pub total_stake_balance: u128,
    /// The reward paid out so far.
    pub total_paid_reward_balance: u128,
    /// The number of accounts with a stake.
    pub total_stakers: u128,
    /// The pool-level reward that has accrued on `total_stake_balance`.
    pub pre_reward: u128,
    /// The height up to which the pool-level reward has been folded.
    pub last_block_balance_change: u64,
    /// The account records by identity.
    pub accounts: StringHashMap<UpgradableAccount>,
    /// Whether the ledger is paused.
    pub paused: bool,
    /// The height at which accrual is frozen while the ledger is paused.
    pub pause_at_block: u64,
    /// A field that ledgers of the earlier layout do not have.
    pub new_data: u128,
}

impl View for StakingContract {
    type V = LedgerState;

    open spec fn view(&self) -> LedgerState {
        LedgerState {
            owner_id: self.owner_id@,
            ft_contract_id: self.ft_contract_id@,
            config: self.config,
            total_stake_balance: self.total_stake_balance,
            total_paid_reward_balance: self.total_paid_reward_balance,
            total_stakers: self.total_stakers,
            pre_reward: self.pre_reward,
            last_block_balance_change: self.last_block_balance_change,
            accounts: self.accounts@,
            paused: self.paused,
            pause_at_block: self.pause_at_block,
            new_data: self.new_data,
        }
    }
}

impl StakingContractV1 {
    /// A new ledger of the earlier layout, created at live height
    /// `block_index`: nothing staked, no account, not paused.
    pub fn new(
        owner_id: String,
        ft_contract_id: String,
        config: Config,
        block_index: u64,
    ) -> (contract: Self)
        ensures
            contract.migrated() == (LedgerState {
                new_data: MIGRATED_NEW_DATA,
                ..LedgerState::initial(owner_id@, ft_contract_id@, config, block_index)
            }),
    {
        StakingContractV1 {
            owner_id,
            ft_contract_id,
            config,
            total_stake_balance: 0,
            total_paid_reward_balance: 0,
            total_stakers: 0,
            pre_reward: 0,
            last_block_balance_change: block_index,
            accounts: StringHashMap::new(),
            paused: false,
            pause_at_block: 0,
        }
    }

    /// This ledger in the current layout: every field it has is kept, and
    /// `new_data` is `MIGRATED_NEW_DATA`.
    pub open spec fn migrated(self) -> LedgerState {
        LedgerState {
            owner_id: self.owner_id@,
            ft_contract_id: self.ft_contract_id@,
            config: self.config,
            total_stake_balance: self.total_stake_balance,
            total_paid_reward_balance: self.total_paid_reward_balance,
            total_stakers: self.total_stakers,
            pre_reward: self.pre_reward,
            last_block_balance_change: self.last_block_balance_change,
            accounts: self.accounts@,
            paused: self.paused,
            pause_at_block: self.pause_at_block,
            new_data: MIGRATED_NEW_DATA,
        }
    }
}

impl StakingContract {
    /// A new ledger with the standard reward rate, created at live height
    /// `block_index`.
    pub fn new_default_config(
        owner_id: String,
        ft_contract_id: String,
        block_index: u64,
    ) -> (contract: Self)
        ensures
            contract@ == LedgerState::initial(
                owner_id@,
                ft_contract_id@,
                Config { reward_numerator: 715, reward_demurator: 1_000_000_000 },
                block_index,
            ),
            contract@.stake_is_consistent(),
            contract@.stakers_are_consistent(),
    {
        Self::new(owner_id, ft_contract_id, Config::default(), block_index)
    }

    /// A new ledger, created at live height `block_index`: nothing staked,
    /// no account, not paused.
    pub fn new(
        owner_id: String,
        ft_contract_id: String,
        config: Config,
        block_index: u64,
    ) -> (contract: Self)
        ensures
            contract@ == LedgerState::initial(owner_id@, ft_contract_id@, config, block_index),
            contract@.stake_is_consistent(),
            contract@.stakers_are_consistent(),
    {
        let contract = StakingContract {
            owner_id,
            ft_contract_id,
            config,
            total_stake_balance: 0,
            total_paid_reward_balance: 0,
            total_stakers: 0,
            pre_reward: 0,
            last_block_balance_change: block_index,
            accounts: StringHashMap::new(),
            paused: false,
            pause_at_block: 0,
            new_data: 0,
        };
        proof {
            crate::sum::lemma_map_sum_empty::<Seq<char>, UpgradableAccount>(
                crate::ledger::stake_weight(),
            );
            crate::sum::lemma_map_sum_empty::<Seq<char>, UpgradableAccount>(
                crate::ledger::staker_weight(),
            );
        }
        contract
    }

    /// Registers an account for `account_id`, or for the caller
    /// `predecessor_account_id` where no identity is given, at live height
    /// `block_index`.
    pub fn storage_deposite(
        &mut self,
        account_id: Option<String>,
        predecessor_account_id: String,
        block_index: u64,
    ) -> (result: Result<(), StakingError>)
        ensures
            ({
                let id = match account_id {
                    Some(id) => id@,
                    None => predecessor_account_id@,
                };
                match result {
                    Ok(()) => old(self)@.register(id, block_index) == Ok::<
                        LedgerState,
                        StakingError,
                    >(final(self)@),
                    Err(e) => old(self)@.register(id, block_index) == Err::<
                        LedgerState,
                        StakingError,
                    >(e) && *final(self) == *old(self),
                }
            }),
            old(self)@.stake_is_consistent() ==> final(self)@.stake_is_consistent(),
            old(self)@.stakers_are_consistent() ==> final(self)@.stakers_are_consistent(),
    {
        let account = match account_id {
            Some(id) => id,
            None => predecessor_account_id,
        };
        self.internal_register_account(account, block_index)
    }

    /// The value of `new_data`.
    pub fn get_new_data(&self) -> (new_data: u128)
        ensures
            new_data == self@.new_data,
    {
        self.new_data
    }

    /// Brings a ledger of the earlier layout to the current one: every field
    /// is kept as it is, the account store included, and `new_data` is set
    /// to `MIGRATED_NEW_DATA`.
    pub fn migrate(contract_v1: StakingContractV1) -> (contract: Self)
        ensures
            contract@ == contract_v1.migrated(),
    {
        StakingContract {
            owner_id: contract_v1.owner_id,
            ft_contract_id: contract_v1.ft_contract_id,
            config: contract_v1.config,
            total_stake_balance: contract_v1.total_stake_balance,
            total_paid_reward_balance: contract_v1.total_paid_reward_balance,
            total_stakers: contract_v1.total_stakers,
            pre_reward: contract_v1.pre_reward,
            last_block_balance_change: contract_v1.last_block_balance_change,
            paused: contract_v1.paused,
            accounts: contract_v1.accounts,
            pause_at_block: contract_v1.pause_at_block,
            new_data: MIGRATED_NEW_DATA,
        }
    }

    /// Whether the ledger is paused.
    pub fn is_pause(&self) -> (paused: bool)
        ensures
            paused == self@.paused,
    {
        self.paused
    }

    /// The identity of the token contract.
    pub fn get_ft_contract(&self) -> (ft_contract_id: String)
        ensures
            ft_contract_id@ == self@.ft_contract_id,
    {
        self.ft_contract_id.clone()
    }

    /// Whether `account_id` has an account record.
    pub fn is_registered(&self, account_id: &str) -> (registered: bool)
        ensures
            registered == self@.is_registered(account_id@),
    {
        self.accounts.contains_key(account_id)
    }

    /// The account record of `account_id` as it stands, in the current
    /// shape.
    pub fn get_account_snapshot(&self, account_id: &str) -> (snapshot: Result<Account, StakingError>)
        ensures
            snapshot == (if self@.is_registered(account_id@) {
                Ok::<Account, StakingError>(self@.account(account_id@))
            } else {
                Err::<Account, StakingError>(StakingError::AccountNotFound)
            }),
    {
        match self.accounts.get(account_id) {
            Some(record) => Ok(record.upgrade()),
            None => Err(StakingError::AccountNotFound),
        }
    }
}

} // verus!
