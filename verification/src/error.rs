//! The ways in which a ledger operation is rejected.

use vstd::prelude::*;

verus! {

/// Why an operation was rejected. A rejected operation commits nothing.
#[derive(Clone, Copy, Debug, PartialEq, Eq, Structural)]
pub enum StakingError {
    /// The identity has no account record.
    AccountNotFound,
    /// The identity already has an account record.
    AlreadyRegistered,
    /// The operation needs a running ledger and the ledger is paused.
    ContractPaused,
    /// The call does not come from the designated value-transfer channel.
    UnauthorizedCaller,
    /// More was asked to be unstaked than the account has staked.
    InsufficientStake,
    /// The account has no unstaked balance pending.
    NothingToWithdraw,
    /// The unstaked balance is still locked up.
    LockupNotElapsed,
    /// The height to accrue up to lies before the last accrual.
    ClockRegression,
    /// A balance, a reward or a count left the range of its integer type.
    ArithmeticOverflow,
}

impl StakingError {
    /// The text under which the error is reported to a caller.
    pub open spec fn message_spec(self) -> Seq<char> {
        match self {
            StakingError::AccountNotFound => "ERR_ACCOUNT_NOT_FOUND"@,
            StakingError::AlreadyRegistered => "ERR_ACCOUNT_ALREADY_REGISTERED"@,
            StakingError::ContractPaused => "ERR_CONTRACT_PAUSED"@,
            StakingError::UnauthorizedCaller => "ERR_INVALID_FT_CONTRACT_ID"@,
            StakingError::InsufficientStake => "ERR_AMOUNT_MUST_LESS_THAN_STAKE_BALANCE"@,
            StakingError::NothingToWithdraw => "ERR_UNSTAKE_BALANCE_EQUAL_0"@,
            StakingError::LockupNotElapsed => "ERR_DISABLE_WITHDRAW"@,
            StakingError::ClockRegression => "ERR_CLOCK_REGRESSION"@,
            StakingError::ArithmeticOverflow => "ERR_ARITHMETIC_OVERFLOW"@,
        }
    }

    /// The text under which the error is reported to a caller.
    pub fn message(&self) -> (text: &'static str)
        ensures
            text@ == self.message_spec(),
    {
        match self {
            StakingError::AccountNotFound => "ERR_ACCOUNT_NOT_FOUND",
            StakingError::AlreadyRegistered => "ERR_ACCOUNT_ALREADY_REGISTERED",
            StakingError::ContractPaused => "ERR_CONTRACT_PAUSED",
            StakingError::UnauthorizedCaller => "ERR_INVALID_FT_CONTRACT_ID",
            StakingError::InsufficientStake => "ERR_AMOUNT_MUST_LESS_THAN_STAKE_BALANCE",
            StakingError::NothingToWithdraw => "ERR_UNSTAKE_BALANCE_EQUAL_0",
            StakingError::LockupNotElapsed => "ERR_DISABLE_WITHDRAW",
            StakingError::ClockRegression => "ERR_CLOCK_REGRESSION",
            StakingError::ArithmeticOverflow => "ERR_ARITHMETIC_OVERFLOW",
        }
    }
}

} // verus!
