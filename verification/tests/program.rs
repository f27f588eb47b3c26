use tax_rewards::address::Address;
use tax_rewards::program::{
    maximum_fee, metadata_lamports, process_initialize, process_update_program_state, ErrorCode,
    InitTokenParams, Initialize, InitializeCall, InitializeError, MintCheckError, ProgramState,
    TransferFeeAuthorities, UpdateProgramState, PROGRAM_STATE_LEN, TAX_BASIS_POINT,
};

fn address(seed: u8) -> Address {
    Address::new([seed; 32])
}

fn params() -> InitTokenParams {
    InitTokenParams {
        name: "Taxed".to_string(),
        symbol: "TAX".to_string(),
        uri: "https://example.org/tax.json".to_string(),
        decimals: 9,
        total_supply: 1_000_000,
    }
}

fn accounts(mint_is_empty: bool) -> Initialize {
    Initialize {
        state: ProgramState {
            authority: address(0),
            token_mint: address(0),
            reward_mint: address(0),
        },
        token_mint: address(2),
        authority: address(1),
        reward_mint: address(3),
        mint_is_empty,
        mint_authorities: TransferFeeAuthorities {
            transfer_fee_config_authority: Some(address(1)),
            withdraw_withheld_authority: Some(address(1)),
        },
    }
}

#[test]
fn the_fixed_figures() {
    assert_eq!(TAX_BASIS_POINT, 1000);
    assert_eq!(PROGRAM_STATE_LEN, 104);
}

#[test]
fn the_maximum_fee_is_a_tenth_of_the_supply() {
    assert_eq!(maximum_fee(1_000_000), 100_000);
    assert_eq!(maximum_fee(9), 0);
    assert_eq!(maximum_fee(u64::MAX as u128 * 10), u64::MAX);
    assert_eq!(maximum_fee((u64::MAX as u128 + 1) * 10), 0);
    assert_eq!(maximum_fee(u128::MAX), ((u128::MAX / 10) & (u64::MAX as u128)) as u64);
}

#[test]
fn metadata_costs_two_years_of_rent_per_byte() {
    assert_eq!(metadata_lamports(0), Some(0));
    assert_eq!(metadata_lamports(1), Some(6960));
    assert_eq!(metadata_lamports(10), Some(69600));
    assert_eq!(metadata_lamports(usize::MAX), None);
    let most = (u64::MAX / 6960) as usize;
    assert_eq!(metadata_lamports(most), Some(most as u64 * 6960));
    assert_eq!(metadata_lamports(most + 1), None);
}

#[test]
fn initialize_writes_the_record_and_lists_the_calls() {
    let mut accounts = accounts(true);
    let calls = process_initialize(&mut accounts, params(), 278, 2_825_760, 100).unwrap();
    assert_eq!(
        accounts.state,
        ProgramState { authority: address(1), token_mint: address(2), reward_mint: address(3) }
    );
    assert_eq!(
        calls,
        vec![
            InitializeCall::CreateAccount { lamports: 2_825_760, space: 278 },
            InitializeCall::TransferFeeInitialize {
                authority: address(1),
                basis_points: 1000,
                maximum_fee: 100_000,
            },
            InitializeCall::MetadataPointerInitialize {
                authority: address(1),
                metadata_address: address(2),
            },
            InitializeCall::InitializeMint { decimals: 9, authority: address(1) },
            InitializeCall::CheckMintData,
            InitializeCall::Transfer { lamports: 696_000 },
            InitializeCall::TokenMetadataInitialize {
                name: "Taxed".to_string(),
                symbol: "TAX".to_string(),
                uri: "https://example.org/tax.json".to_string(),
            },
        ]
    );
}

#[test]
fn initialize_leaves_an_existing_mint_account_alone() {
    let mut accounts = accounts(false);
    let calls = process_initialize(&mut accounts, params(), 278, 2_825_760, 100).unwrap();
    assert_eq!(calls.len(), 6);
    assert!(matches!(calls[0], InitializeCall::TransferFeeInitialize { .. }));
}

#[test]
fn initialize_writes_nothing_where_the_rent_overflows() {
    let mut accounts = accounts(true);
    let before = accounts;
    assert_eq!(
        process_initialize(&mut accounts, params(), 278, 1, usize::MAX).unwrap_err(),
        InitializeError::ArithmeticOverflow
    );
    assert_eq!(accounts, before);
}

#[test]
fn the_mint_check_passes_for_the_recorded_authority() {
    let accounts = accounts(true);
    assert!(accounts.mint_data_matches());
    assert_eq!(accounts.check_mint_data(), Ok(()));
}

#[test]
fn the_mint_check_cannot_be_made_for_the_zero_address() {
    let mut accounts = accounts(true);
    accounts.authority = address(0);
    assert!(!accounts.mint_data_matches());
    assert_eq!(accounts.check_mint_data(), Err(MintCheckError::InvalidArgument));
}

#[test]
fn the_mint_data_does_not_match_another_authority() {
    let mut accounts = accounts(true);
    accounts.mint_authorities.withdraw_withheld_authority = Some(address(8));
    assert!(!accounts.mint_data_matches());
    accounts.mint_authorities.withdraw_withheld_authority = None;
    assert!(!accounts.mint_data_matches());
}

#[test]
fn an_update_changes_what_is_given_and_keeps_the_rest() {
    let state =
        ProgramState { authority: address(1), token_mint: address(2), reward_mint: address(3) };
    let mut accounts = UpdateProgramState { state, authority: address(1) };
    process_update_program_state(&mut accounts, None, None);
    assert_eq!(accounts.state, state);
    process_update_program_state(&mut accounts, None, Some(address(7)));
    assert_eq!(
        accounts.state,
        ProgramState { authority: address(1), token_mint: address(2), reward_mint: address(7) }
    );
    process_update_program_state(&mut accounts, Some(address(5)), Some(address(6)));
    assert_eq!(
        accounts.state,
        ProgramState { authority: address(5), token_mint: address(2), reward_mint: address(6) }
    );
    assert_eq!(accounts.authority, address(1));
}

#[test]
fn every_error_has_its_text() {
    assert_eq!(
        ErrorCode::InsufficientTaxCollected.message(),
        "Insufficient tax collected for swap"
    );
    assert_eq!(
        ErrorCode::InsufficientRewards.message(),
        "Insufficient rewards for distribution"
    );
    assert_eq!(
        ErrorCode::EmptyTransferList.message(),
        "Invalid batch data: recipients and balances can not be empty"
    );
    assert_eq!(
        ErrorCode::InvalidBatchData.message(),
        "Invalid batch data: recipients and balances arrays must have the same length"
    );
    assert_eq!(ErrorCode::BatchTooLarge.message(), "Batch size exceeds maximum allowed");
    assert_eq!(
        ErrorCode::PercentageSumExceeds100.message(),
        "Batch percentage exceeds 100% allowed"
    );
    assert_eq!(ErrorCode::UnauthorizedAccess.message(), "Unauthorized access");
    assert_eq!(ErrorCode::InvalidTokenSupply.message(), "Invalid token supply");
    assert_eq!(
        ErrorCode::DistributionTooEarly.message(),
        "Distribution too early, must wait for next epoch"
    );
    assert_eq!(ErrorCode::ArithmeticOverflow.message(), "Arithmetic overflow");
}
