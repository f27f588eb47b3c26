//! The on-chain side of the taxed token, as far as it decides anything: the
//! record that the program keeps, the figures of the mint's set-up, and the
//! order of the calls that set the mint up.

use crate::address::Address;
use vstd::prelude::*;

verus! {

/// The transfer fee in basis points: a tenth of every transfer.
pub const TAX_BASIS_POINT: u16 = 1000;

/// Bytes that the program's record takes: an eight-byte tag and three
/// addresses.
pub const PROGRAM_STATE_LEN: usize = 8 + 32 + 32 + 32;

/// The record that the program keeps.
#[derive(Clone, Copy, Debug, PartialEq, Eq)]
pub struct ProgramState {
    /// Who may change the record.
    pub authority: Address,
    /// The taxed mint.
    pub token_mint: Address,
    /// The mint that rewards are paid in.
    pub reward_mint: Address,
}

/// What the mint is set up with.
#[derive(Clone, Debug, PartialEq, Eq)]
pub struct InitTokenParams {
    pub name: String,
    pub symbol: String,
    pub uri: String,
    pub decimals: u8,
    pub total_supply: u128,
}

/// The errors of the program.
#[derive(Clone, Copy, Debug, PartialEq, Eq, Structural)]
pub enum ErrorCode {
    UnauthorizedAccess,
    InsufficientTaxCollected,
    InsufficientRewards,
    InvalidTokenSupply,
    DistributionTooEarly,
    EmptyTransferList,
    InvalidBatchData,
    BatchTooLarge,
    PercentageSumExceeds100,
    ArithmeticOverflow,
}

impl ErrorCode {
    /// The text of the error.
    pub open spec fn message_of(self) -> Seq<char> {
        match self {
            ErrorCode::UnauthorizedAccess => "Unauthorized access"@,
            ErrorCode::InsufficientTaxCollected => "Insufficient tax collected for swap"@,
            ErrorCode::InsufficientRewards => "Insufficient rewards for distribution"@,
            ErrorCode::InvalidTokenSupply => "Invalid token supply"@,
            ErrorCode::DistributionTooEarly => "Distribution too early, must wait for next epoch"@,
            ErrorCode::EmptyTransferList => "Invalid batch data: recipients and balances can not be empty"@,
            ErrorCode::InvalidBatchData => "Invalid batch data: recipients and balances arrays must have the same length"@,
            ErrorCode::BatchTooLarge => "Batch size exceeds maximum allowed"@,
            ErrorCode::PercentageSumExceeds100 => "Batch percentage exceeds 100% allowed"@,
            ErrorCode::ArithmeticOverflow => "Arithmetic overflow"@,
        }
    }

    /// The text of the error.
    pub fn message(self) -> (text: &'static str)
        ensures
            text@ == self.message_of(),
    {
        match self {
            ErrorCode::UnauthorizedAccess => "Unauthorized access",
            ErrorCode::InsufficientTaxCollected => "Insufficient tax collected for swap",
            ErrorCode::InsufficientRewards => "Insufficient rewards for distribution",
            ErrorCode::InvalidTokenSupply => "Invalid token supply",
            ErrorCode::DistributionTooEarly => "Distribution too early, must wait for next epoch",
            ErrorCode::EmptyTransferList => "Invalid batch data: recipients and balances can not be empty",
            ErrorCode::InvalidBatchData => "Invalid batch data: recipients and balances arrays must have the same length",
            ErrorCode::BatchTooLarge => "Batch size exceeds maximum allowed",
            ErrorCode::PercentageSumExceeds100 => "Batch percentage exceeds 100% allowed",
            ErrorCode::ArithmeticOverflow => "Arithmetic overflow",
        }
    }
}

/// The two authorities that the mint's transfer-fee extension records; an
/// authority that is not set reads as none.
#[derive(Clone, Copy, Debug, PartialEq, Eq)]
pub struct TransferFeeAuthorities {
    /// Who may change the fee.
    pub transfer_fee_config_authority: Option<Address>,
    /// Who may withdraw withheld fees.
    pub withdraw_withheld_authority: Option<Address>,
}

/// Why the check of the mint could not be made.
#[derive(Clone, Copy, Debug, PartialEq, Eq, Structural)]
pub enum MintCheckError {
    /// The authority is the all-zero address, which cannot be recorded.
    InvalidArgument,
}

/// The accounts that the set-up of the mint works on, as far as it reads
/// them.
#[derive(Clone, Copy, Debug, PartialEq, Eq)]
pub struct Initialize {
    /// The program's record, written by the set-up.
    pub state: ProgramState,
    /// The mint to set up.
    pub token_mint: Address,
    /// Who signs and pays.
    pub authority: Address,
    /// The mint that rewards are paid in.
    pub reward_mint: Address,
    /// Whether the mint account holds no data yet.
    pub mint_is_empty: bool,
    /// What the mint's transfer-fee extension records, once it is set up.
    pub mint_authorities: TransferFeeAuthorities,
}

/// The accounts that a change of the record works on.
#[derive(Clone, Copy, Debug, PartialEq, Eq)]
pub struct UpdateProgramState {
    /// The program's record.
    pub state: ProgramState,
    /// Who signs.
    pub authority: Address,
}

/// Whether an address is all zeroes.
pub open spec fn is_zero_address(bytes: Seq<u8>) -> bool {
    forall|i: int| 0 <= i < bytes.len() ==> bytes[i] == 0
}

/// Whether an authority of the extension is set, and to `authority`.
pub open spec fn is_set_to(recorded: Option<Address>, authority: Address) -> bool {
    recorded is Some && recorded->Some_0@ == authority@
}

/// The largest fee that one transfer can be charged: a tenth of the total
/// supply, cut to 64 bits.
pub open spec fn maximum_fee_of(total_supply: u128) -> u64 {
    ((total_supply / 10) % 0x1_0000_0000_0000_0000) as u64
}

/// The largest fee that one transfer can be charged.
pub fn maximum_fee(total_supply: u128) -> (fee: u64)
    ensures
        fee == maximum_fee_of(total_supply),
{
    let tenth: u128 = total_supply / 10;
    (tenth % 0x1_0000_0000_0000_0000) as u64
}

/// Calls nothing: reads `DEFAULT_LAMPORTS_PER_BYTE_YEAR` of
/// `solana_sdk::rent`, which is 3480.
#[verifier::external_body]
fn lamports_per_byte_year() -> (lamports: u64)
    ensures
        lamports == 3480,
{
    solana_sdk::rent::DEFAULT_LAMPORTS_PER_BYTE_YEAR
}

/// Calls nothing: reads `DEFAULT_EXEMPTION_THRESHOLD` of `solana_sdk::rent`
/// as a whole number of years, which is 2.
#[verifier::external_body]
fn exemption_years() -> (years: u64)
    ensures
        years == 2,
{
    solana_sdk::rent::DEFAULT_EXEMPTION_THRESHOLD as u64
}

/// What keeping `data_len` more bytes costs: the yearly price of a byte
/// for the years that exempt an account from rent.
pub open spec fn metadata_lamports_of(data_len: nat) -> nat {
    data_len * 3480 * 2
}

/// The lamports to add to the mint for `data_len` bytes of metadata; none
/// where the sum does not fit in 64 bits.
pub fn metadata_lamports(data_len: usize) -> (res: Option<u64>)
    ensures
        res is Some <==> metadata_lamports_of(data_len as nat) <= u64::MAX,
        res is Some ==> res->Some_0 == metadata_lamports_of(data_len as nat),
{
    let per_byte: u64 = lamports_per_byte_year();
    let years: u64 = exemption_years();
    let len: u64 = data_len as u64;
    match len.checked_mul(per_byte) {
        None => {
            assert(data_len * 3480 * 2 > u64::MAX) by (nonlinear_arith)
                requires
                    data_len * 3480 > u64::MAX,
            ;
            None
        },
        Some(yearly) => yearly.checked_mul(years),
    }
}

/// One call that the set-up of the mint makes, with what it is handed.
#[derive(Clone, Debug, PartialEq, Eq)]
pub enum InitializeCall {
    /// Create the mint account, owned by the token program.
    CreateAccount { lamports: u64, space: u64 },
    /// Set up the transfer fee; the authority may change it and withdraw.
    TransferFeeInitialize { authority: Address, basis_points: u16, maximum_fee: u64 },
    /// Point the mint's metadata at the mint itself.
    MetadataPointerInitialize { authority: Address, metadata_address: Address },
    /// Set up the mint; the authority may mint and freeze.
    InitializeMint { decimals: u8, authority: Address },
    /// Read the mint back and check its authorities.
    CheckMintData,
    /// Pay for the metadata's bytes.
    Transfer { lamports: u64 },
    /// Write name, symbol and address of the metadata.
    TokenMetadataInitialize { name: String, symbol: String, uri: String },
}

/// What the set-up of the mint could not do.
#[derive(Clone, Copy, Debug, PartialEq, Eq, Structural)]
pub enum InitializeError {
    /// The price of the metadata's bytes does not fit in 64 bits.
    ArithmeticOverflow,
}

impl Initialize {
    /// Checks that the mint's transfer-fee extension records the authority
    /// both as the one who may change the fee and as the one who may
    /// withdraw.
    ///
    /// The check cannot be made for the all-zero address. For any other
    /// authority the two records must match it: a mint that records another
    /// is outside what this function takes.
    pub fn check_mint_data(&self) -> (res: Result<(), MintCheckError>)
        requires
            !is_zero_address(self.authority@) ==> is_set_to(
                self.mint_authorities.transfer_fee_config_authority,
                self.authority,
            ) && is_set_to(self.mint_authorities.withdraw_withheld_authority, self.authority),
        ensures
            res is Err <==> is_zero_address(self.authority@),
            res is Err ==> res->Err_0 == MintCheckError::InvalidArgument,
    {
        let zero = Address::new([0u8; 32]);
        if self.authority.same_as(&zero) {
            assert(is_zero_address(self.authority@));
            Err(MintCheckError::InvalidArgument)
        } else {
            assert(!is_zero_address(self.authority@)) by {
                if is_zero_address(self.authority@) {
                    assert(self.authority@ =~= zero@);
                }
            }
            Ok(())
        }
    }

    /// Whether the mint's transfer-fee extension records the authority in
    /// both places.
    pub fn mint_data_matches(&self) -> (matches: bool)
        ensures
            matches == (is_set_to(
                self.mint_authorities.transfer_fee_config_authority,
                self.authority,
            ) && is_set_to(self.mint_authorities.withdraw_withheld_authority, self.authority)),
    {
        let config = match self.mint_authorities.transfer_fee_config_authority {
            Some(recorded) => recorded.same_as(&self.authority),
            None => false,
        };
        let withdraw = match self.mint_authorities.withdraw_withheld_authority {
            Some(recorded) => recorded.same_as(&self.authority),
            None => false,
        };
        config && withdraw
    }
}

/// The calls that set the mint up, in order.
pub open spec fn initialize_calls(
    accounts: Initialize,
    params: InitTokenParams,
    mint_size: usize,
    mint_lamports: u64,
    metadata_len: usize,
) -> Seq<InitializeCall> {
    let create = if accounts.mint_is_empty {
        seq![InitializeCall::CreateAccount { lamports: mint_lamports, space: mint_size as u64 }]
    } else {
        Seq::empty()
    };
    create + seq![
        InitializeCall::TransferFeeInitialize {
            authority: accounts.authority,
            basis_points: TAX_BASIS_POINT,
            maximum_fee: maximum_fee_of(params.total_supply),
        },
        InitializeCall::MetadataPointerInitialize {
            authority: accounts.authority,
            metadata_address: accounts.token_mint,
        },
        InitializeCall::InitializeMint { decimals: params.decimals, authority: accounts.authority },
        InitializeCall::CheckMintData,
        InitializeCall::Transfer {
            lamports: metadata_lamports_of(metadata_len as nat) as u64,
        },
        InitializeCall::TokenMetadataInitialize {
            name: params.name,
            symbol: params.symbol,
            uri: params.uri,
        },
    ]
}

/// Sets the mint up: writes the program's record and lists the calls to
/// make, in order.
///
/// `mint_size` and `mint_lamports` are the size of the mint account with its
/// extensions and the balance that exempts it from rent; `metadata_len` is
/// the number of bytes that the metadata adds. Nothing is written where the
/// price of those bytes does not fit in 64 bits.
pub fn process_initialize(
    accounts: &mut Initialize,
    params: InitTokenParams,
    mint_size: usize,
    mint_lamports: u64,
    metadata_len: usize,
) -> (res: Result<Vec<InitializeCall>, InitializeError>)
    ensures
        res is Ok <==> metadata_lamports_of(metadata_len as nat) <= u64::MAX,
        res is Err ==> *final(accounts) == *old(accounts),
        res is Ok ==> {
            &&& *final(accounts) == (Initialize {
                state: ProgramState {
                    authority: old(accounts).authority,
                    token_mint: old(accounts).token_mint,
                    reward_mint: old(accounts).reward_mint,
                },
                ..*old(accounts)
            })
            &&& res->Ok_0@ == initialize_calls(
                *old(accounts),
                params,
                mint_size,
                mint_lamports,
                metadata_len,
            )
        },
{
    let lamports: u64 = match metadata_lamports(metadata_len) {
        Some(lamports) => lamports,
        None => {
            return Err(InitializeError::ArithmeticOverflow);
        },
    };
    accounts.state.authority = accounts.authority;
    accounts.state.token_mint = accounts.token_mint;
    accounts.state.reward_mint = accounts.reward_mint;
    let mut calls: Vec<InitializeCall> = Vec::new();
    if accounts.mint_is_empty {
        calls.push(InitializeCall::CreateAccount { lamports: mint_lamports, space: mint_size as u64 });
    }
    calls.push(
        InitializeCall::TransferFeeInitialize {
            authority: accounts.authority,
            basis_points: TAX_BASIS_POINT,
            maximum_fee: maximum_fee(params.total_supply),
        },
    );
    calls.push(
        InitializeCall::MetadataPointerInitialize {
            authority: accounts.authority,
            metadata_address: accounts.token_mint,
        },
    );
    calls.push(
        InitializeCall::InitializeMint { decimals: params.decimals, authority: accounts.authority },
    );
    calls.push(InitializeCall::CheckMintData);
    calls.push(InitializeCall::Transfer { lamports });
    calls.push(
        InitializeCall::TokenMetadataInitialize {
            name: params.name,
            symbol: params.symbol,
            uri: params.uri,
        },
    );
    assert(calls@ =~= initialize_calls(
        *old(accounts),
        params,
        mint_size,
        mint_lamports,
        metadata_len,
    ));
    Ok(calls)
}

/// Changes the program's record: the authority and the reward mint take the
/// values given, and keep theirs where none is given.
///
/// Only the recorded authority may sign.
pub fn process_update_program_state(
    accounts: &mut UpdateProgramState,
    authority: Option<Address>,
    reward_mint: Option<Address>,
)
    requires
        old(accounts).state.authority@ == old(accounts).authority@,
    ensures
        final(accounts).authority == old(accounts).authority,
        final(accounts).state.token_mint == old(accounts).state.token_mint,
        final(accounts).state.authority == if authority is Some {
            authority->Some_0
        } else {
            old(accounts).state.authority
        },
        final(accounts).state.reward_mint == if reward_mint is Some {
            reward_mint->Some_0
        } else {
            old(accounts).state.reward_mint
        },
{
    match authority {
        Some(authority) => {
            accounts.state.authority = authority;
        },
        None => {},
    }
    match reward_mint {
        Some(reward_mint) => {
            accounts.state.reward_mint = reward_mint;
        },
        None => {},
    }
}

} // verus!
