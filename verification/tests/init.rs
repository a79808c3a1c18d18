use near_sdk::test_utils::{accounts, VMContextBuilder};
use staking_contract::{Config, StakingContract};

fn get_context(is_view: bool) -> VMContextBuilder {
    let mut builder = VMContextBuilder::new();
    builder
        .current_account_id(accounts(0))
        .signer_account_id(accounts(0))
        .predecessor_account_id(accounts(0))
        .is_view(is_view);
    builder
}

#[test]
fn test_init_contract() {
    let context = get_context(false);
    let block_index: u64 = context.build().block_index;

    let config: Config = Config {
        reward_numerator: 500,
        reward_demurator: 100000,
    };

    let contract: StakingContract = StakingContract::new(
        accounts(1).to_string(),
        "ft_contract".to_string(),
        config,
        block_index,
    );

    assert_eq!(contract.owner_id, accounts(1).to_string());
    assert_eq!(contract.ft_contract_id, "ft_contract".to_string());
    assert_eq!(config.reward_numerator, contract.config.reward_numerator);
    assert_eq!(contract.paused, false);
}

#[test]
fn it_works() {
    let result: i32 = 2 + 2;
    assert_eq!(result, 4);
}

#[test]
fn new_ledger_is_empty() {
    let config: Config = Config { reward_numerator: 1, reward_demurator: 2 };
    let contract = StakingContract::new("owner".to_string(), "token".to_string(), config, 42);
    assert_eq!(contract.total_stake_balance, 0);
    assert_eq!(contract.total_paid_reward_balance, 0);
    assert_eq!(contract.total_stakers, 0);
    assert_eq!(contract.pre_reward, 0);
    assert_eq!(contract.last_block_balance_change, 42);
    assert_eq!(contract.pause_at_block, 0);
    assert_eq!(contract.get_new_data(), 0);
    assert!(!contract.is_pause());
    assert_eq!(contract.get_ft_contract(), "token".to_string());
    assert!(!contract.is_registered("owner"));
    assert_eq!(contract.storage_balance_of("owner".to_string()), 0);
}

#[test]
fn default_config_is_the_standard_rate() {
    let config = Config::default();
    assert_eq!(config.reward_numerator, 715);
    assert_eq!(config.reward_demurator, 1_000_000_000);
    assert!(config.is_valid());
    let contract = StakingContract::new_default_config("owner".to_string(), "token".to_string(), 7);
    assert_eq!(contract.config, config);
    assert_eq!(contract.last_block_balance_change, 7);
    assert_eq!(contract.owner_id, "owner".to_string());
    assert_eq!(contract.ft_contract_id, "token".to_string());
}

#[test]
fn zero_denominator_is_not_a_valid_rate() {
    let config: Config = Config { reward_numerator: 5, reward_demurator: 0 };
    assert!(!config.is_valid());
}
