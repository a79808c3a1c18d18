//! The reward rate of a ledger instance.

use vstd::prelude::*;

verus! {

/// Reward rate, fixed per ledger instance: `reward_numerator / reward_demurator`
/// per unit of staked balance per unit of height.
#[derive(Clone, Copy, Debug, PartialEq, Eq, Structural)]
pub struct Config {
    pub reward_numerator: u32,
    pub reward_demurator: u32,
}

impl Config {
    /// A rate is usable when its denominator is not zero.
    pub open spec fn wf(&self) -> bool {
        self.reward_demurator > 0
    }

    /// Whether the rate is usable.
    pub fn is_valid(&self) -> (valid: bool)
        ensures
            valid == self.wf(),
    {
        self.reward_demurator > 0
    }
}

impl Default for Config {
    /// The standard rate, 715 per 1_000_000_000.
    fn default() -> (config: Self)
        ensures
            config == (Config { reward_numerator: 715, reward_demurator: 1_000_000_000 }),
            config.wf(),
    {
        Config { reward_numerator: 715, reward_demurator: 1_000_000_000 }
    }
}

} // verus!
