use solana_sdk::pubkey::Pubkey;
use tax_rewards::address::{Address, AddressError};
use tax_rewards::config::CycleTexts;
use tax_rewards::controller::{Controller, ControllerAction, ControllerEvent, Report};
use tax_rewards::cycle::{
    Action, CycleConfig, CycleError, CycleOutcome, CycleResult, Event, Phase,
};
use tax_rewards::distribution::{DistributionError, HolderBalance};
use tax_rewards::instruction::{
    create_account_instruction, harvest_accounts, payout_instructions, Instruction,
};
use tax_rewards::machine::Cycle;
use tax_rewards::swap::{swap_instruction, SwapSides, SwapV2};

fn text(seed: u8) -> String {
    Pubkey::new_from_array([seed; 32]).to_string()
}

fn address(seed: u8) -> Address {
    Address::new([seed; 32])
}

fn config(slippage_percent: Option<u8>) -> CycleConfig {
    let texts = CycleTexts {
        tax_program: text(1),
        token_mint: text(2),
        reward_mint: text(3),
        base_vault: text(4),
        quote_vault: text(5),
        observation_state: text(6),
        pool_id: text(7),
        amm_config: text(8),
    };
    CycleConfig::from_texts(address(9), &texts, slippage_percent).unwrap()
}

fn holder(account: u8, owner: u8, balance: u64) -> HolderBalance {
    HolderBalance { account: text(account), owner: text(owner), balance }
}

fn three_holders() -> Vec<HolderBalance> {
    vec![holder(50, 60, 500), holder(51, 61, 300), holder(52, 62, 200)]
}

fn read_balance(action: Action) -> Address {
    match action {
        Action::ReadBalance(account) => account,
        other => panic!("expected a balance to be read, got {:?}", other),
    }
}

fn sent(action: Action) -> Instruction {
    match action {
        Action::Send(instruction) => instruction,
        other => panic!("expected an instruction to be sent, got {:?}", other),
    }
}

fn checked(action: Action) -> Address {
    match action {
        Action::CheckAccount(account) => account,
        other => panic!("expected an account to be looked up, got {:?}", other),
    }
}

fn finished(action: Action) -> CycleOutcome {
    match action {
        Action::Finish(outcome) => outcome,
        other => panic!("expected the cycle to end, got {:?}", other),
    }
}

/// Drives a fresh cycle up to the point where the balance after the
/// withdrawal is asked for.
fn harvested_cycle(config: CycleConfig, pre_balance: u64, holders: Vec<HolderBalance>) -> Cycle {
    let mut cycle = Cycle::new(config).unwrap();
    let admin = cycle.admin_account();
    assert_eq!(read_balance(cycle.step(Event::Begin)), admin);
    match cycle.step(Event::Amount(pre_balance)) {
        Action::FetchHolders(mint) => assert_eq!(mint, config.token_mint),
        other => panic!("expected the holders to be fetched, got {:?}", other),
    }
    let mut action = cycle.step(Event::Holders(holders));
    while let Action::Harvest(_) = action {
        action = cycle.step(Event::Confirmed);
    }
    match action {
        Action::Withdraw(destination) => assert_eq!(destination, admin),
        other => panic!("expected the withdrawal, got {:?}", other),
    }
    assert_eq!(read_balance(cycle.step(Event::Confirmed)), admin);
    assert_eq!(cycle.phase(), Phase::PostBalance);
    cycle
}

/// Drives a cycle from the measured harvest to the point where the holders
/// to pay are asked for.
fn swapped_cycle(config: CycleConfig, reward_balance: u64, supply: u64) -> Cycle {
    let mut cycle = harvested_cycle(config, 100, three_holders());
    let reward = cycle.reward_account();
    assert_eq!(checked(cycle.step(Event::Amount(150))), reward);
    let _swap = sent(cycle.step(Event::AccountFound(true)));
    assert_eq!(read_balance(cycle.step(Event::Confirmed)), reward);
    match cycle.step(Event::Amount(reward_balance)) {
        Action::ReadSupply(mint) => assert_eq!(mint, config.token_mint),
        other => panic!("expected the supply to be read, got {:?}", other),
    }
    match cycle.step(Event::Amount(supply)) {
        Action::FetchHolders(mint) => assert_eq!(mint, config.token_mint),
        other => panic!("expected the holders to be fetched, got {:?}", other),
    }
    assert_eq!(cycle.phase(), Phase::PayoutHolders);
    cycle
}

#[test]
fn new_cycle_derives_the_payer_accounts() {
    let config = config(None);
    let cycle = Cycle::new(config).unwrap();
    let admin = Address::associated(
        &config.payer,
        &config.programs.token_2022_program,
        &config.token_mint,
        &config.programs.associated_token_program,
    )
    .unwrap();
    let reward = Address::associated(
        &config.payer,
        &config.programs.token_program,
        &config.reward_mint,
        &config.programs.associated_token_program,
    )
    .unwrap();
    assert_eq!(cycle.admin_account(), admin);
    assert_eq!(cycle.reward_account(), reward);
    assert_eq!(cycle.phase(), Phase::Idle);
    assert!(cycle.plan().is_empty());
}

#[test]
fn harvest_goes_batch_by_batch_then_withdraws() {
    let config = config(None);
    let mut cycle = Cycle::new(config).unwrap();
    let admin = cycle.admin_account();
    cycle.step(Event::Begin);
    cycle.step(Event::Amount(7));
    let holders: Vec<HolderBalance> = (0..45u8).map(|i| holder(100 + i, 200, 1)).collect();
    let accounts: Vec<Address> = (0..45u8).map(|i| address(100 + i)).collect();
    let mut seen: Vec<Vec<Address>> = Vec::new();
    let mut action = cycle.step(Event::Holders(holders));
    loop {
        match action {
            Action::Harvest(metas) => {
                assert_eq!(cycle.phase(), Phase::Harvest);
                assert!(metas.iter().all(|m| m.is_writable && !m.is_signer));
                seen.push(metas.iter().map(|m| m.pubkey).collect());
                action = cycle.step(Event::Confirmed);
            }
            Action::Withdraw(destination) => {
                assert_eq!(destination, admin);
                break;
            }
            other => panic!("unexpected action {:?}", other),
        }
    }
    assert_eq!(seen.len(), 3);
    assert_eq!(seen[0], accounts[0..20].to_vec());
    assert_eq!(seen[1], accounts[20..40].to_vec());
    assert_eq!(seen[2], accounts[40..45].to_vec());
    assert_eq!(harvest_accounts(&seen[2]).len(), 5);
}

#[test]
fn no_holders_means_no_harvest_batch() {
    let cycle = harvested_cycle(config(None), 5, Vec::new());
    assert_eq!(cycle.phase(), Phase::PostBalance);
}

#[test]
fn nothing_harvested_ends_the_cycle_without_a_swap() {
    let mut cycle = harvested_cycle(config(None), 100, three_holders());
    let outcome = finished(cycle.step(Event::Amount(100)));
    assert_eq!(
        outcome,
        CycleOutcome::NothingHarvested(CycleResult {
            pre_balance: 100,
            post_balance: 100,
            harvested: 0,
            swapped_out: 0,
            holders_paid: 0,
        })
    );
    assert_eq!(cycle.phase(), Phase::Done);
    for event in [Event::Confirmed, Event::Begin, Event::AccountFound(true), Event::Amount(1)] {
        assert_eq!(
            finished(cycle.step(event)),
            CycleOutcome::Failed(CycleError::UnexpectedEvent(Phase::Done))
        );
    }
}

#[test]
fn a_lower_balance_after_the_withdrawal_fails_the_cycle() {
    let mut cycle = harvested_cycle(config(None), 100, three_holders());
    assert_eq!(
        finished(cycle.step(Event::Amount(99))),
        CycleOutcome::Failed(CycleError::BalanceDecreased)
    );
}

#[test]
fn a_holder_account_that_is_no_address_fails_the_cycle() {
    let mut cycle = Cycle::new(config(None)).unwrap();
    cycle.step(Event::Begin);
    cycle.step(Event::Amount(0));
    let holders = vec![
        holder(50, 60, 1),
        HolderBalance { account: "0".to_string(), owner: text(61), balance: 1 },
    ];
    assert_eq!(
        finished(cycle.step(Event::Holders(holders))),
        CycleOutcome::Failed(CycleError::BadAddress(AddressError::Invalid))
    );
}

#[test]
fn a_failed_harvest_batch_fails_the_cycle() {
    let mut cycle = Cycle::new(config(None)).unwrap();
    cycle.step(Event::Begin);
    cycle.step(Event::Amount(0));
    cycle.step(Event::Holders(three_holders()));
    assert_eq!(
        finished(cycle.step(Event::Failed)),
        CycleOutcome::Failed(CycleError::StepFailed(Phase::Harvest))
    );
}

#[test]
fn the_swap_hands_in_the_harvest_without_a_floor() {
    let config = config(None);
    let mut cycle = harvested_cycle(config, 100, three_holders());
    cycle.step(Event::Amount(150));
    let swap = sent(cycle.step(Event::AccountFound(true)));
    let sides = SwapSides {
        input_token_account: cycle.admin_account(),
        output_token_account: cycle.reward_account(),
        input_mint: config.token_mint,
        output_mint: config.reward_mint,
        input_token_program: config.programs.token_2022_program,
        output_token_program: config.programs.token_program,
    };
    let expected = swap_instruction(
        &config.programs,
        &config.payer,
        &config.pool,
        &sides,
        &SwapV2::exact_input(50, 0),
    );
    assert_eq!(swap, expected);
    assert_eq!(cycle.phase(), Phase::Swap);
}

#[test]
fn a_missing_reward_account_is_created_before_the_swap() {
    let config = config(None);
    let mut cycle = harvested_cycle(config, 100, three_holders());
    cycle.step(Event::Amount(150));
    let create = sent(cycle.step(Event::AccountFound(false)));
    let expected = create_account_instruction(
        &config.payer,
        &cycle.reward_account(),
        &config.payer,
        &config.reward_mint,
        &config.programs.system_program,
        &config.programs.token_program,
        &config.programs.associated_token_program,
    );
    assert_eq!(create, expected);
    assert_eq!(cycle.phase(), Phase::RewardAccountCreate);
    let swap = sent(cycle.step(Event::Confirmed));
    assert_eq!(swap.program_id, config.programs.swap_program);
}

#[test]
fn a_failed_creation_of_the_reward_account_is_passed_over() {
    let config = config(None);
    let mut cycle = harvested_cycle(config, 100, three_holders());
    cycle.step(Event::Amount(150));
    cycle.step(Event::AccountFound(false));
    let swap = sent(cycle.step(Event::Failed));
    assert_eq!(swap.program_id, config.programs.swap_program);
    assert_eq!(cycle.phase(), Phase::Swap);
}

#[test]
fn a_quote_sets_the_floor_of_the_swap() {
    let config = config(Some(25));
    let mut cycle = harvested_cycle(config, 100, three_holders());
    cycle.step(Event::Amount(200));
    assert_eq!(read_balance(cycle.step(Event::AccountFound(true))), config.pool.input_vault);
    assert_eq!(read_balance(cycle.step(Event::Amount(900))), config.pool.output_vault);
    let swap = sent(cycle.step(Event::Amount(1000)));
    assert_eq!(swap.data, SwapV2::exact_input(100, 75).instruction_data());
}

#[test]
fn a_failed_swap_fails_the_cycle_and_the_next_one_still_runs() {
    let mut cycle = harvested_cycle(config(None), 100, three_holders());
    cycle.step(Event::Amount(150));
    cycle.step(Event::AccountFound(true));
    let outcome = finished(cycle.step(Event::Failed));
    assert_eq!(outcome, CycleOutcome::Failed(CycleError::StepFailed(Phase::Swap)));
    assert_eq!(cycle.phase(), Phase::Done);

    let mut controller = Controller::new(60);
    assert_eq!(controller.step(ControllerEvent::Started), ControllerAction::RunCycle);
    assert_eq!(
        controller.step(ControllerEvent::CycleEnded(outcome)),
        ControllerAction::ReportAndSleep {
            report: Report::Failed(CycleError::StepFailed(Phase::Swap)),
            seconds: 60,
        }
    );
    assert_eq!(controller.step(ControllerEvent::Woke), ControllerAction::RunCycle);
}

#[test]
fn the_rewards_are_shared_and_every_holder_paid() {
    let config = config(None);
    let mut cycle = swapped_cycle(config, 100, 1000);
    let mut action = cycle.step(Event::Holders(three_holders()));
    let amounts = [50u64, 30, 20];
    for (i, amount) in amounts.iter().enumerate() {
        let owner = address(60 + i as u8);
        let expected = payout_instructions(
            &config.programs.token_program,
            &config.payer,
            &config.reward_mint,
            &owner,
            *amount,
        )
        .unwrap();
        assert_eq!(checked(action), expected.account);
        if i == 0 {
            assert_eq!(sent(cycle.step(Event::AccountFound(false))), expected.create);
            assert_eq!(sent(cycle.step(Event::Confirmed)), expected.transfer);
        } else {
            assert_eq!(sent(cycle.step(Event::AccountFound(true))), expected.transfer);
        }
        action = cycle.step(Event::Confirmed);
    }
    assert_eq!(
        finished(action),
        CycleOutcome::Distributed(CycleResult {
            pre_balance: 100,
            post_balance: 150,
            harvested: 50,
            swapped_out: 100,
            holders_paid: 3,
        })
    );
    assert_eq!(cycle.plan().total(), 100);
    assert!(cycle.unpaid().is_empty());
}

#[test]
fn a_failed_transfer_is_noted_and_the_others_are_still_paid() {
    let mut cycle = swapped_cycle(config(None), 100, 1000);
    cycle.step(Event::Holders(three_holders()));
    cycle.step(Event::AccountFound(true));
    cycle.step(Event::Confirmed);
    cycle.step(Event::AccountFound(true));
    let third = checked(cycle.step(Event::Failed));
    assert_ne!(third, cycle.reward_account());
    cycle.step(Event::AccountFound(false));
    cycle.step(Event::Confirmed);
    assert_eq!(
        finished(cycle.step(Event::Confirmed)),
        CycleOutcome::Failed(CycleError::PayoutsFailed { paid: 2, failed: 1 })
    );
    assert_eq!(cycle.unpaid(), &vec![1usize]);
    assert_eq!(cycle.result().holders_paid, 2);
}

#[test]
fn a_recipient_whose_account_cannot_be_created_is_noted() {
    let mut cycle = swapped_cycle(config(None), 100, 1000);
    cycle.step(Event::Holders(three_holders()));
    cycle.step(Event::AccountFound(false));
    let _second = checked(cycle.step(Event::Failed));
    assert_eq!(cycle.unpaid(), &vec![0usize]);
    assert_eq!(cycle.phase(), Phase::RecipientCheck);
}

#[test]
fn a_recipient_that_is_no_address_is_noted_when_planning() {
    let mut cycle = swapped_cycle(config(None), 100, 1000);
    let holders = vec![
        HolderBalance { account: text(50), owner: "not an address".to_string(), balance: 500 },
        holder(51, 61, 500),
    ];
    let only = checked(cycle.step(Event::Holders(holders)));
    let expected = payout_instructions(
        &config(None).programs.token_program,
        &address(9),
        &address(3),
        &address(61),
        50,
    )
    .unwrap();
    assert_eq!(only, expected.account);
    assert_eq!(cycle.unpaid(), &vec![0usize]);
    cycle.step(Event::AccountFound(true));
    assert_eq!(
        finished(cycle.step(Event::Confirmed)),
        CycleOutcome::Failed(CycleError::PayoutsFailed { paid: 1, failed: 1 })
    );
}

#[test]
fn a_supply_of_zero_fails_the_cycle() {
    let mut cycle = swapped_cycle(config(None), 100, 0);
    assert_eq!(
        finished(cycle.step(Event::Holders(three_holders()))),
        CycleOutcome::Failed(CycleError::Distribution(DistributionError::ZeroSupply))
    );
}

#[test]
fn shares_that_all_round_to_zero_pay_nobody() {
    let mut cycle = swapped_cycle(config(None), 1, 1000);
    assert_eq!(
        finished(cycle.step(Event::Holders(three_holders()))),
        CycleOutcome::Distributed(CycleResult {
            pre_balance: 100,
            post_balance: 150,
            harvested: 50,
            swapped_out: 1,
            holders_paid: 0,
        })
    );
}

#[test]
fn an_outcome_that_does_not_fit_the_phase_fails_the_cycle() {
    let mut cycle = Cycle::new(config(None)).unwrap();
    assert_eq!(
        finished(cycle.step(Event::Confirmed)),
        CycleOutcome::Failed(CycleError::UnexpectedEvent(Phase::Idle))
    );
    let mut cycle = Cycle::new(config(None)).unwrap();
    cycle.step(Event::Begin);
    assert_eq!(
        finished(cycle.step(Event::AccountFound(true))),
        CycleOutcome::Failed(CycleError::UnexpectedEvent(Phase::PreBalance))
    );
}

#[test]
fn a_failed_read_fails_the_cycle_in_its_phase() {
    let mut cycle = Cycle::new(config(None)).unwrap();
    cycle.step(Event::Begin);
    assert_eq!(
        finished(cycle.step(Event::Failed)),
        CycleOutcome::Failed(CycleError::StepFailed(Phase::PreBalance))
    );
    let mut cycle = swapped_cycle(config(None), 100, 1000);
    assert_eq!(
        finished(cycle.step(Event::Failed)),
        CycleOutcome::Failed(CycleError::StepFailed(Phase::PayoutHolders))
    );
}

#[test]
fn the_widest_quote_still_fits() {
    let mut cycle = harvested_cycle(config(Some(25)), 0, three_holders());
    cycle.step(Event::Amount(u64::MAX));
    cycle.step(Event::AccountFound(true));
    cycle.step(Event::Amount(1));
    let swap = sent(cycle.step(Event::Amount(u64::MAX)));
    assert_eq!(
        swap.data,
        SwapV2::exact_input(u64::MAX, 13835058055282163710).instruction_data()
    );
}
