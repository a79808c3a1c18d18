use staking_contract::{
    Account, AccountV1, Config, StakingContract, StakingContractV1, StakingError,
    UpgradableAccount,
};

fn old_record() -> AccountV1 {
    AccountV1 {
        stake_balance: 11,
        pre_reward: 22,
        last_block_balance_change: 33,
        unstake_balance: 44,
        unstake_start_timestamp: 55,
        unstake_available_epoch: 66,
    }
}

#[test]
fn upgrade_keeps_fields_and_defaults_the_new_one() {
    let account = UpgradableAccount::V1(old_record()).upgrade();
    assert_eq!(
        account,
        Account {
            stake_balance: 11,
            pre_reward: 22,
            last_block_balance_change: 33,
            unstake_balance: 44,
            unstake_start_timestamp: 55,
            unstake_available_epoch: 66,
            new_account_data: 10,
        }
    );
}

#[test]
fn upgrade_is_idempotent() {
    let once = UpgradableAccount::V1(old_record()).upgrade();
    let twice = UpgradableAccount::Current(once).upgrade();
    assert_eq!(once, twice);
    let thrice = UpgradableAccount::from(twice).upgrade();
    assert_eq!(once, thrice);
}

#[test]
fn upgrade_leaves_a_current_record_alone() {
    let account = Account {
        stake_balance: 1,
        pre_reward: 2,
        last_block_balance_change: 3,
        unstake_balance: 4,
        unstake_start_timestamp: 5,
        unstake_available_epoch: 6,
        new_account_data: 77,
    };
    assert_eq!(UpgradableAccount::Current(account).upgrade(), account);
    assert_eq!(Account::from(UpgradableAccount::Current(account)), account);
    assert_eq!(UpgradableAccount::from(account), UpgradableAccount::Current(account));
    assert_eq!(Account::from(UpgradableAccount::V1(old_record())).new_account_data, 10);
}

#[test]
fn new_account_is_zeroed_at_its_height() {
    assert_eq!(
        Account::new(123),
        Account {
            stake_balance: 0,
            pre_reward: 0,
            last_block_balance_change: 123,
            unstake_balance: 0,
            unstake_start_timestamp: 0,
            unstake_available_epoch: 0,
            new_account_data: 10,
        }
    );
}

#[test]
fn ledger_reads_a_record_of_the_earlier_shape() {
    let config: Config = Config { reward_numerator: 1, reward_demurator: 1 };
    let mut contract = StakingContract::new("owner".to_string(), "token".to_string(), config, 33);
    contract.accounts.insert("carol".to_string(), UpgradableAccount::V1(old_record()));
    contract.total_stake_balance = 11;
    contract.total_stakers = 1;

    assert!(contract.is_registered("carol"));
    assert_eq!(
        contract.get_account_snapshot("carol"),
        Ok(UpgradableAccount::V1(old_record()).upgrade())
    );

    assert_eq!(
        contract.internal_deposit_and_stake("carol".to_string(), 9, "token".to_string(), 35),
        Ok(())
    );
    let account = contract.get_account_snapshot("carol").unwrap();
    assert_eq!(account.stake_balance, 20);
    assert_eq!(account.pre_reward, 22 + 11 * 2);
    assert_eq!(account.last_block_balance_change, 35);
    assert_eq!(account.unstake_balance, 44);
    assert_eq!(account.unstake_start_timestamp, 55);
    assert_eq!(account.unstake_available_epoch, 66);
    assert_eq!(account.new_account_data, 10);
    assert_eq!(contract.accounts.get("carol"), Some(&UpgradableAccount::Current(account)));
}

#[test]
fn migrate_keeps_every_field() {
    let config: Config = Config { reward_numerator: 3, reward_demurator: 7 };
    let mut source = StakingContract::new("owner".to_string(), "token".to_string(), config, 5);
    assert_eq!(source.internal_register_account("alice".to_string(), 5), Ok(()));
    assert_eq!(
        source.internal_deposit_and_stake("alice".to_string(), 70, "token".to_string(), 6),
        Ok(())
    );
    let stored = source.get_account_snapshot("alice").unwrap();

    let contract_v1 = StakingContractV1 {
        owner_id: source.owner_id,
        ft_contract_id: source.ft_contract_id,
        config: source.config,
        total_stake_balance: 70,
        total_paid_reward_balance: 13,
        total_stakers: 1,
        pre_reward: 17,
        last_block_balance_change: 6,
        accounts: source.accounts,
        paused: true,
        pause_at_block: 19,
    };
    let contract = StakingContract::migrate(contract_v1);

    assert_eq!(contract.owner_id, "owner".to_string());
    assert_eq!(contract.ft_contract_id, "token".to_string());
    assert_eq!(contract.config, config);
    assert_eq!(contract.total_stake_balance, 70);
    assert_eq!(contract.total_paid_reward_balance, 13);
    assert_eq!(contract.total_stakers, 1);
    assert_eq!(contract.pre_reward, 17);
    assert_eq!(contract.last_block_balance_change, 6);
    assert_eq!(contract.paused, true);
    assert_eq!(contract.pause_at_block, 19);
    assert_eq!(contract.get_new_data(), 10);
    assert_eq!(contract.get_account_snapshot("alice"), Ok(stored));
    assert_eq!(
        contract.get_account_snapshot("bob"),
        Err(StakingError::AccountNotFound)
    );
}
