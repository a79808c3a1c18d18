//! What holds of the ledger's operations, whatever the state and the
//! arguments.

use vstd::prelude::*;
use crate::account::{Account, UpgradableAccount};
use crate::error::StakingError;
use crate::ledger::{stake_weight, staker_weight, LedgerState};
use crate::sum::{lemma_map_sum_bounds_entry, lemma_map_sum_insert};

verus! {

/// One call of an operation of the ledger, with its arguments.
pub enum Operation {
    Register { id: Seq<char>, block_index: u64 },
    DepositAndStake { id: Seq<char>, amount: u128, caller: Seq<char>, block_index: u64 },
    Unstake {
        id: Seq<char>,
        amount: u128,
        block_index: u64,
        block_timestamp: u64,
        epoch_height: u64,
    },
    Withdraw { id: Seq<char>, epoch_height: u64 },
}

impl LedgerState {
    /// The state after `operation`: the next state where it is accepted,
    /// this state where it is rejected.
    pub open spec fn apply(self, operation: Operation) -> LedgerState {
        match operation {
            Operation::Register { id, block_index } => match self.register(id, block_index) {
                Ok(next) => next,
                Err(_) => self,
            },
            Operation::DepositAndStake { id, amount, caller, block_index } => match self.deposit_and_stake(
                id,
                amount,
                caller,
                block_index,
            ) {
                Ok(next) => next,
                Err(_) => self,
            },
            Operation::Unstake {
                id,
                amount,
                block_index,
                block_timestamp,
                epoch_height,
            } => match self.unstake(id, amount, block_index, block_timestamp, epoch_height) {
                Ok(next) => next,
                Err(_) => self,
            },
            Operation::Withdraw { id, epoch_height } => match self.withdraw(id, epoch_height) {
                Ok((next, _)) => next,
                Err(_) => self,
            },
        }
    }

    /// The state after `operations`, one after the other.
    pub open spec fn apply_all(self, operations: Seq<Operation>) -> LedgerState
        decreases operations.len(),
    {
        if operations.len() == 0 {
            self
        } else {
            self.apply_all(operations.drop_last()).apply(operations.last())
        }
    }
}

/// Writing the record of `id` changes the staked total by the difference
/// between the new stake and the old one, and the number of stakers by
/// whether the account starts or stops having a stake.
pub proof fn lemma_write_account(state: LedgerState, id: Seq<char>, account: Account)
    requires
        state.accounts.dom().finite(),
    ensures
        ({
            let next = LedgerState {
                accounts: state.accounts.insert(id, UpgradableAccount::Current(account)),
                ..state
            };
            let old_stake = if state.is_registered(id) {
                state.account(id).stake_balance
            } else {
                0
            };
            &&& next.accounts.dom().finite()
            &&& next.total_staked() + old_stake == state.total_staked() + account.stake_balance
            &&& next.staker_count() + (if old_stake > 0 {
                1nat
            } else {
                0nat
            }) == state.staker_count() + (if account.stake_balance > 0 {
                1nat
            } else {
                0nat
            })
        }),
{
    let record = UpgradableAccount::Current(account);
    lemma_map_sum_insert(state.accounts, stake_weight(), id, record);
    lemma_map_sum_insert(state.accounts, staker_weight(), id, record);
}

/// No account has more staked than the pool's total says.
pub proof fn lemma_stake_within_total(state: LedgerState, id: Seq<char>)
    requires
        state.stake_is_consistent(),
        state.is_registered(id),
    ensures
        state.account(id).stake_balance <= state.total_stake_balance,
{
    lemma_map_sum_bounds_entry(state.accounts, stake_weight(), id);
}

/// An accepted deposit adds exactly `amount` to the stake of the account,
/// sets the height of its last accrual to the effective height of the call,
/// which is the live height, and leaves every other account as it is.
pub proof fn lemma_deposit_adds_amount(
    state: LedgerState,
    id: Seq<char>,
    amount: u128,
    caller: Seq<char>,
    block_index: u64,
)
    requires
        state.deposit_and_stake(id, amount, caller, block_index) is Ok,
    ensures
        ({
            let next = state.deposit_and_stake(id, amount, caller, block_index)->Ok_0;
            &&& next.is_registered(id)
            &&& next.account(id).stake_balance == state.account(id).stake_balance + amount
            &&& next.account(id).last_block_balance_change == state.height(block_index)
            &&& state.height(block_index) == block_index
            &&& next.total_stake_balance == state.total_stake_balance + amount
            &&& forall|other: Seq<char>|
                other != id ==> next.is_registered(other) == state.is_registered(other)
                    && next.accounts[other] == state.accounts[other]
        }),
{
}

/// An accepted unstake moves exactly `amount` from the stake of the account
/// to its unstaked balance and out of the pool's total, sets the height of
/// its last accrual to the effective height of the call, and leaves every
/// other account as it is.
pub proof fn lemma_unstake_moves_amount(
    state: LedgerState,
    id: Seq<char>,
    amount: u128,
    block_index: u64,
    block_timestamp: u64,
    epoch_height: u64,
)
    requires
        state.unstake(id, amount, block_index, block_timestamp, epoch_height) is Ok,
    ensures
        ({
            let next = state.unstake(id, amount, block_index, block_timestamp, epoch_height)->Ok_0;
            &&& next.is_registered(id)
            &&& next.account(id).stake_balance == state.account(id).stake_balance - amount
            &&& next.account(id).unstake_balance == state.account(id).unstake_balance + amount
            &&& next.account(id).last_block_balance_change == state.height(block_index)
            &&& next.total_stake_balance == state.total_stake_balance - amount
            &&& forall|other: Seq<char>|
                other != id ==> next.is_registered(other) == state.is_registered(other)
                    && next.accounts[other] == state.accounts[other]
        }),
{
}

/// Every operation keeps the pool's staked total equal to the sum of the
/// accounts' stakes.
pub proof fn lemma_apply_keeps_stake_total(state: LedgerState, operation: Operation)
    requires
        state.stake_is_consistent(),
    ensures
        state.apply(operation).stake_is_consistent(),
{
    match operation {
        Operation::Register { id, block_index } => {
            if state.register(id, block_index) is Ok {
                lemma_write_account(state, id, Account::zeroed(state.height(block_index)));
            }
        },
        Operation::DepositAndStake { id, amount, caller, block_index } => {
            let outcome = state.deposit_and_stake(id, amount, caller, block_index);
            if outcome is Ok {
                let next = outcome->Ok_0;
                lemma_write_account(state, id, next.account(id));
            }
        },
        Operation::Unstake { id, amount, block_index, block_timestamp, epoch_height } => {
            let outcome = state.unstake(id, amount, block_index, block_timestamp, epoch_height);
            if outcome is Ok {
                let next = outcome->Ok_0;
                lemma_write_account(state, id, next.account(id));
            }
        },
        Operation::Withdraw { id, epoch_height } => {
            if state.withdraw(id, epoch_height) is Ok {
                lemma_write_account(state, id, state.account(id).withdrawn());
            }
        },
    }
}

/// After any sequence of operations on a ledger whose staked total is the
/// sum of its accounts' stakes, the total is still that sum.
pub proof fn lemma_stake_total_invariant(state: LedgerState, operations: Seq<Operation>)
    requires
        state.stake_is_consistent(),
    ensures
        state.apply_all(operations).stake_is_consistent(),
    decreases operations.len(),
{
    if operations.len() > 0 {
        lemma_stake_total_invariant(state, operations.drop_last());
        lemma_apply_keeps_stake_total(
            state.apply_all(operations.drop_last()),
            operations.last(),
        );
    }
}

/// Whether `operation` moves an amount of zero into or out of a stake.
pub open spec fn moves_nothing(operation: Operation) -> bool {
    match operation {
        Operation::DepositAndStake { amount, .. } => amount == 0,
        Operation::Unstake { amount, .. } => amount == 0,
        _ => false,
    }
}

/// Every operation that does not move an amount of zero keeps the pool's
/// number of stakers equal to the number of accounts with a stake above
/// zero.
pub proof fn lemma_apply_keeps_staker_count(state: LedgerState, operation: Operation)
    requires
        state.stakers_are_consistent(),
        !moves_nothing(operation),
    ensures
        state.apply(operation).stakers_are_consistent(),
{
    match operation {
        Operation::Register { id, block_index } => {
            if state.register(id, block_index) is Ok {
                lemma_write_account(state, id, Account::zeroed(state.height(block_index)));
            }
        },
        Operation::DepositAndStake { id, amount, caller, block_index } => {
            let outcome = state.deposit_and_stake(id, amount, caller, block_index);
            if outcome is Ok {
                let next = outcome->Ok_0;
                lemma_write_account(state, id, next.account(id));
            }
        },
        Operation::Unstake { id, amount, block_index, block_timestamp, epoch_height } => {
            let outcome = state.unstake(id, amount, block_index, block_timestamp, epoch_height);
            if outcome is Ok {
                let next = outcome->Ok_0;
                lemma_write_account(state, id, next.account(id));
            }
        },
        Operation::Withdraw { id, epoch_height } => {
            if state.withdraw(id, epoch_height) is Ok {
                lemma_write_account(state, id, state.account(id).withdrawn());
            }
        },
    }
}

/// After any sequence of operations of which none moves an amount of zero,
/// on a ledger whose number of stakers is the number of its accounts with a
/// stake above zero, the number is still that.
pub proof fn lemma_staker_count_invariant(state: LedgerState, operations: Seq<Operation>)
    requires
        state.stakers_are_consistent(),
        forall|i: int| 0 <= i < operations.len() ==> !moves_nothing(#[trigger] operations[i]),
    ensures
        state.apply_all(operations).stakers_are_consistent(),
    decreases operations.len(),
{
    if operations.len() > 0 {
        let earlier = operations.drop_last();
        assert forall|i: int| 0 <= i < earlier.len() implies !moves_nothing(
            #[trigger] earlier[i],
        ) by {
            assert(earlier[i] == operations[i]);
        }
        lemma_staker_count_invariant(state, earlier);
        lemma_apply_keeps_staker_count(state.apply_all(earlier), operations.last());
    }
}

/// On a ledger whose totals agree with its accounts, an unstake of no more
/// than the stake is rejected only where an accrual fails or the unstaked
/// balance would overflow: the pool's total and its number of stakers
/// cannot run below zero.
pub proof fn lemma_unstake_totals_suffice(
    state: LedgerState,
    id: Seq<char>,
    amount: u128,
    block_index: u64,
    block_timestamp: u64,
    epoch_height: u64,
)
    requires
        state.stake_is_consistent(),
        state.stakers_are_consistent(),
        state.is_registered(id),
        0 < amount <= state.account(id).stake_balance,
        state.account(id).accrued(state.config, state.height(block_index)) is Ok,
        state.pool_accrued(state.height(block_index)) is Ok,
        state.account(id).unstake_balance + amount <= u128::MAX,
    ensures
        state.unstake(id, amount, block_index, block_timestamp, epoch_height) is Ok,
{
    lemma_map_sum_bounds_entry(state.accounts, stake_weight(), id);
    lemma_map_sum_bounds_entry(state.accounts, staker_weight(), id);
}

/// Whether `operation` is called at live height `block_index`. A withdrawal
/// reads no height.
pub open spec fn runs_at(operation: Operation, block_index: u64) -> bool {
    match operation {
        Operation::Register { block_index: at, .. } => at == block_index,
        Operation::DepositAndStake { block_index: at, .. } => at == block_index,
        Operation::Unstake { block_index: at, .. } => at == block_index,
        Operation::Withdraw { .. } => true,
    }
}

impl LedgerState {
    /// No accrual, of an account or of the pool, has run past the effective
    /// height for live height `block_index`.
    pub open spec fn clock_is_consistent(self, block_index: u64) -> bool {
        &&& self.last_block_balance_change <= self.height(block_index)
        &&& forall|id: Seq<char>|
            self.is_registered(id) ==> (#[trigger] self.account(id)).last_block_balance_change
                <= self.height(block_index)
    }
}

/// As the live height grows, accruals that had not run past the effective
/// height still have not.
pub proof fn lemma_clock_moves_forward(state: LedgerState, block_index: u64, later_block_index: u64)
    requires
        state.clock_is_consistent(block_index),
        block_index <= later_block_index,
    ensures
        state.clock_is_consistent(later_block_index),
{
    assert forall|id: Seq<char>| state.is_registered(id) implies (#[trigger] state.account(
        id,
    )).last_block_balance_change <= state.height(later_block_index) by {}
}

/// An operation called at a live height leaves no accrual past the
/// effective height for it.
pub proof fn lemma_apply_keeps_clock(state: LedgerState, operation: Operation, block_index: u64)
    requires
        state.clock_is_consistent(block_index),
        runs_at(operation, block_index),
    ensures
        state.apply(operation).clock_is_consistent(block_index),
{
    let next = state.apply(operation);
    assert(next.height(block_index) == state.height(block_index));
    assert forall|id: Seq<char>| next.is_registered(id) implies (#[trigger] next.account(
        id,
    )).last_block_balance_change <= next.height(block_index) by {
        if state.is_registered(id) {
            assert(state.account(id).last_block_balance_change <= state.height(block_index));
        }
    }
}

/// Where no accrual has run past the effective height, no deposit and no
/// unstake is rejected with `ClockRegression`.
pub proof fn lemma_no_clock_regression(
    state: LedgerState,
    id: Seq<char>,
    amount: u128,
    caller: Seq<char>,
    block_index: u64,
    block_timestamp: u64,
    epoch_height: u64,
)
    requires
        state.clock_is_consistent(block_index),
    ensures
        state.deposit_and_stake(id, amount, caller, block_index) != Err::<
            LedgerState,
            StakingError,
        >(StakingError::ClockRegression),
        state.unstake(id, amount, block_index, block_timestamp, epoch_height) != Err::<
            LedgerState,
            StakingError,
        >(StakingError::ClockRegression),
{
    if state.is_registered(id) {
        assert(state.account(id).last_block_balance_change <= state.height(block_index));
    }
}

/// No operation takes an account away or lowers the reward that an account
/// has accrued. Only an unstake lowers a stake, and only a withdrawal
/// lowers an unstaked balance.
pub proof fn lemma_apply_moves_balances_one_way(
    state: LedgerState,
    operation: Operation,
    id: Seq<char>,
)
    requires
        state.is_registered(id),
    ensures
        state.apply(operation).is_registered(id),
        state.apply(operation).account(id).pre_reward >= state.account(id).pre_reward,
        !(operation is Unstake) ==> state.apply(operation).account(id).stake_balance
            >= state.account(id).stake_balance,
        !(operation is Withdraw) ==> state.apply(operation).account(id).unstake_balance
            >= state.account(id).unstake_balance,
{
}

/// While the ledger is paused, the live height does not matter: every
/// accrual, of an account and of the pool, runs up to the height of the
/// pause.
pub proof fn lemma_pause_freezes_accrual(
    state: LedgerState,
    account: Account,
    block_index: u64,
    later_block_index: u64,
)
    requires
        state.paused,
    ensures
        state.height(block_index) == state.pause_at_block,
        account.accrued(state.config, state.height(block_index)) == account.accrued(
            state.config,
            state.height(later_block_index),
        ),
        state.pool_accrued(state.height(block_index)) == state.pool_accrued(
            state.height(later_block_index),
        ),
{
}

/// Of two accepted unstakes in a row, the second one restarts the lock-up
/// for everything that is unstaked: the unstaked balance holds both
/// amounts, and its timestamp and epoch are those of the second call.
pub proof fn lemma_second_unstake_restarts_lockup(
    state: LedgerState,
    id: Seq<char>,
    first_amount: u128,
    first_block_index: u64,
    first_timestamp: u64,
    first_epoch: u64,
    second_amount: u128,
    second_block_index: u64,
    second_timestamp: u64,
    second_epoch: u64,
)
    requires
        state.unstake(id, first_amount, first_block_index, first_timestamp, first_epoch) is Ok,
        state.unstake(
            id,
            first_amount,
            first_block_index,
            first_timestamp,
            first_epoch,
        )->Ok_0.unstake(id, second_amount, second_block_index, second_timestamp, second_epoch) is Ok,
    ensures
        ({
            let between = state.unstake(
                id,
                first_amount,
                first_block_index,
                first_timestamp,
                first_epoch,
            )->Ok_0;
            let after = between.unstake(
                id,
                second_amount,
                second_block_index,
                second_timestamp,
                second_epoch,
            )->Ok_0;
            &&& after.account(id).unstake_balance == state.account(id).unstake_balance
                + first_amount + second_amount
            &&& after.account(id).stake_balance == state.account(id).stake_balance - first_amount
                - second_amount
            &&& after.account(id).unstake_start_timestamp == second_timestamp
            &&& after.account(id).unstake_available_epoch == second_epoch
            &&& after.account(id).unstake_balance > 0 ==> forall|epoch: u64|
                epoch < second_epoch ==> after.withdraw(id, epoch) == Err::<
                    (LedgerState, Account),
                    StakingError,
                >(StakingError::LockupNotElapsed)
        }),
{
}

/// A withdrawal of a pending unstaked balance is rejected with
/// `LockupNotElapsed` before the epoch from which it is available; at that
/// epoch and after it, it is accepted, hands out the account as it was and
/// leaves it with nothing unstaked and with its stake and reward as they
/// were.
pub proof fn lemma_withdraw_respects_lockup(state: LedgerState, id: Seq<char>, epoch_height: u64)
    requires
        state.is_registered(id),
        state.account(id).unstake_balance > 0,
    ensures
        epoch_height < state.account(id).unstake_available_epoch ==> state.withdraw(
            id,
            epoch_height,
        ) == Err::<(LedgerState, Account), StakingError>(StakingError::LockupNotElapsed),
        epoch_height >= state.account(id).unstake_available_epoch ==> {
            &&& state.withdraw(id, epoch_height) is Ok
            &&& state.withdraw(id, epoch_height)->Ok_0.1 == state.account(id)
            &&& state.withdraw(id, epoch_height)->Ok_0.0.account(id).unstake_balance == 0
            &&& state.withdraw(id, epoch_height)->Ok_0.0.account(id).stake_balance
                == state.account(id).stake_balance
            &&& state.withdraw(id, epoch_height)->Ok_0.0.account(id).pre_reward == state.account(
                id,
            ).pre_reward
        },
{
}

} // verus!
