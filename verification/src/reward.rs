//! Reward accrual: what a balance earns over an interval of heights, and the
//! height that accrual runs up to while the ledger is paused.

use vstd::prelude::*;
use vstd::arithmetic::div_mod::lemma_div_is_ordered;
use crate::error::StakingError;

verus! {

/// The height that accrual runs up to: frozen at `pause_at_block` while the
/// ledger is paused, the live height otherwise.
pub open spec fn effective_height_spec(paused: bool, pause_at_block: u64, live_height: u64) -> u64 {
    if paused {
        pause_at_block
    } else {
        live_height
    }
}

/// The height that accrual runs up to: frozen at `pause_at_block` while the
/// ledger is paused, the live height otherwise.
#[verifier::when_used_as_spec(effective_height_spec)]
pub fn effective_height(paused: bool, pause_at_block: u64, live_height: u64) -> (height: u64)
    ensures
        height == effective_height_spec(paused, pause_at_block, live_height),
{
    if paused {
        pause_at_block
    } else {
        live_height
    }
}

/// The product that the reward is the quotient of.
pub open spec fn reward_product(balance: nat, numerator: nat, elapsed: nat) -> nat {
    balance * numerator * elapsed
}

/// The reward owed on `balance` after `elapsed` heights at the rate
/// `numerator / denominator`, rounded down.
pub open spec fn reward_owed(balance: nat, numerator: nat, denominator: nat, elapsed: nat) -> nat {
    reward_product(balance, numerator, elapsed) / denominator
}

/// What `accrue` returns.
pub open spec fn accrue_spec(
    balance: u128,
    last_height: u64,
    effective_height: u64,
    numerator: u32,
    denominator: u32,
) -> Result<u128, StakingError> {
    let elapsed = (effective_height - last_height) as nat;
    if effective_height < last_height {
        Err(StakingError::ClockRegression)
    } else if reward_product(balance as nat, numerator as nat, elapsed) > u128::MAX {
        Err(StakingError::ArithmeticOverflow)
    } else {
        Ok(reward_owed(balance as nat, numerator as nat, denominator as nat, elapsed) as u128)
    }
}

/// The reward owed on `balance` for the heights from `last_height` to
/// `effective_height`.
///
/// The product `balance * numerator * elapsed` is formed in 128 bits before
/// the division; the call fails when it does not fit, and when the clock has
/// gone backwards.
pub fn accrue(
    balance: u128,
    last_height: u64,
    effective_height: u64,
    numerator: u32,
    denominator: u32,
) -> (reward: Result<u128, StakingError>)
    requires
        denominator > 0,
    ensures
        reward == accrue_spec(balance, last_height, effective_height, numerator, denominator),
{
    if effective_height < last_height {
        return Err(StakingError::ClockRegression);
    }
    let elapsed: u64 = effective_height - last_height;
    if elapsed == 0 {
        proof {
            lemma_zero_elapsed(balance as nat, numerator as nat, denominator as nat);
        }
        return Ok(0);
    }
    let scaled: u128 = match balance.checked_mul(numerator as u128) {
        Some(scaled) => scaled,
        None => {
            assert(reward_product(balance as nat, numerator as nat, elapsed as nat) > u128::MAX)
                by (nonlinear_arith)
                requires
                    balance * numerator > u128::MAX,
                    elapsed >= 1,
            ;
            return Err(StakingError::ArithmeticOverflow);
        },
    };
    match scaled.checked_mul(elapsed as u128) {
        Some(product) => Ok(product / (denominator as u128)),
        None => Err(StakingError::ArithmeticOverflow),
    }
}

/// Over no heights, no reward is owed.
pub proof fn lemma_zero_elapsed(balance: nat, numerator: nat, denominator: nat)
    requires
        denominator > 0,
    ensures
        reward_product(balance, numerator, 0) == 0,
        reward_owed(balance, numerator, denominator, 0) == 0,
{
    assert(balance * numerator * 0 == 0) by (nonlinear_arith);
}

/// Accruing from a height up to the same height succeeds and yields nothing,
/// whatever the balance and the rate.
pub proof fn lemma_accrue_zero_elapsed(balance: u128, height: u64, numerator: u32, denominator: u32)
    requires
        denominator > 0,
    ensures
        accrue_spec(balance, height, height, numerator, denominator) == Ok::<u128, StakingError>(0),
{
    lemma_zero_elapsed(balance as nat, numerator as nat, denominator as nat);
}

/// The reward does not shrink when the balance or the elapsed interval grows.
pub proof fn lemma_reward_monotonic(
    balance1: nat,
    balance2: nat,
    numerator: nat,
    denominator: nat,
    elapsed1: nat,
    elapsed2: nat,
)
    requires
        denominator > 0,
        balance1 <= balance2,
        elapsed1 <= elapsed2,
    ensures
        reward_product(balance1, numerator, elapsed1) <= reward_product(balance2, numerator, elapsed2),
        reward_owed(balance1, numerator, denominator, elapsed1) <= reward_owed(
            balance2,
            numerator,
            denominator,
            elapsed2,
        ),
{
    assert(balance1 * numerator * elapsed1 <= balance2 * numerator * elapsed2) by (nonlinear_arith)
        requires
            balance1 <= balance2,
            elapsed1 <= elapsed2,
    ;
    lemma_div_is_ordered(
        (balance1 * numerator * elapsed1) as int,
        (balance2 * numerator * elapsed2) as int,
        denominator as int,
    );
}

/// Where `accrue` succeeds on a larger balance over a longer interval at the
/// same rate, it succeeds on the smaller one over the shorter interval too,
/// and yields no more.
pub proof fn lemma_accrue_monotonic(
    balance1: u128,
    balance2: u128,
    last_height1: u64,
    effective_height1: u64,
    last_height2: u64,
    effective_height2: u64,
    numerator: u32,
    denominator: u32,
)
    requires
        denominator > 0,
        balance1 <= balance2,
        last_height1 <= effective_height1,
        effective_height1 - last_height1 <= effective_height2 - last_height2,
        accrue_spec(balance2, last_height2, effective_height2, numerator, denominator) is Ok,
    ensures
        accrue_spec(balance1, last_height1, effective_height1, numerator, denominator) is Ok,
        accrue_spec(balance1, last_height1, effective_height1, numerator, denominator)->Ok_0
            <= accrue_spec(balance2, last_height2, effective_height2, numerator, denominator)->Ok_0,
{
    let elapsed1 = (effective_height1 - last_height1) as nat;
    let elapsed2 = (effective_height2 - last_height2) as nat;
    lemma_reward_monotonic(
        balance1 as nat,
        balance2 as nat,
        numerator as nat,
        denominator as nat,
        elapsed1,
        elapsed2,
    );
    lemma_reward_fits(balance1 as nat, numerator as nat, denominator as nat, elapsed1);
    lemma_reward_fits(balance2 as nat, numerator as nat, denominator as nat, elapsed2);
}

/// The reward is no more than the product it is the quotient of.
pub proof fn lemma_reward_fits(balance: nat, numerator: nat, denominator: nat, elapsed: nat)
    requires
        denominator > 0,
    ensures
        reward_owed(balance, numerator, denominator, elapsed) <= reward_product(
            balance,
            numerator,
            elapsed,
        ),
{
    let product = reward_product(balance, numerator, elapsed);
    assert(product / denominator <= product) by (nonlinear_arith)
        requires
            denominator > 0,
            product >= 0,
    ;
}

} // verus!
