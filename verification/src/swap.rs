//! The swap of harvested tokens for the reward token: a conservative quote,
//! the floor that slippage allows, and the instruction itself.

use crate::address::Address;
use crate::discriminant::discriminant_of;
use crate::discriminant::get_discriminant;
use crate::instruction::le_bytes;
use crate::instruction::meta_views;
use crate::instruction::writable;
use crate::instruction::AccountMeta;
use crate::instruction::AccountMetaView;
use crate::instruction::Instruction;
use crate::instruction::InstructionView;
use crate::programs::ProgramIds;
use vstd::prelude::*;

verus! {

/// Arguments of the pool's `swap_v2` instruction.
#[derive(Clone, Copy, Debug, PartialEq, Eq)]
pub struct SwapV2 {
    /// Amount handed in (or wanted out, where `is_base_input` is false).
    pub amount: u64,
    /// Least amount accepted in return; zero accepts any.
    pub other_amount_threshold: u64,
    /// Price limit; zero sets none.
    pub sqrt_price_limit_x64: u128,
    /// Whether `amount` is the amount handed in.
    pub is_base_input: bool,
}

/// The accounts of the pool that a swap goes through.
#[derive(Clone, Copy, Debug, PartialEq, Eq)]
pub struct PoolAccounts {
    pub pool_state: Address,
    pub amm_config: Address,
    pub input_vault: Address,
    pub output_vault: Address,
    pub observation_state: Address,
}

/// The token accounts and mints on the two sides of a swap.
#[derive(Clone, Copy, Debug, PartialEq, Eq)]
pub struct SwapSides {
    pub input_token_account: Address,
    pub output_token_account: Address,
    pub input_mint: Address,
    pub output_mint: Address,
    pub input_token_program: Address,
    pub output_token_program: Address,
}

/// Constant-product estimate of what `amount_in` buys from a pool holding
/// `reserve_in` and `reserve_out`, rounded down.
pub open spec fn estimated_out(amount_in: nat, reserve_in: nat, reserve_out: nat) -> nat
    recommends
        reserve_in + amount_in > 0,
{
    (amount_in * reserve_out) / (reserve_in + amount_in)
}

/// The part of `estimate` that remains after giving up `slippage_percent`
/// hundredths of it, rounded down; nothing remains from 100 percent on.
pub open spec fn floor_after_slippage(estimate: nat, slippage_percent: nat) -> nat {
    if slippage_percent >= 100 {
        0
    } else {
        (estimate * (100 - slippage_percent) as nat) / 100
    }
}

/// Estimates the output of a swap from the vaults' reserves.
///
/// There is no estimate for an empty trade against an empty vault, where the
/// formula divides by zero. An estimate never exceeds the output reserve.
pub fn estimate_amount_out(amount_in: u64, reserve_in: u64, reserve_out: u64) -> (res: Option<u64>)
    ensures
        res is None <==> reserve_in as nat + amount_in as nat == 0,
        res is Some ==> res->Some_0 == estimated_out(
            amount_in as nat,
            reserve_in as nat,
            reserve_out as nat,
        ),
        res is Some ==> res->Some_0 <= reserve_out,
{
    let denominator: u128 = reserve_in as u128 + amount_in as u128;
    if denominator == 0 {
        return None;
    }
    assert(amount_in * reserve_out <= u128::MAX) by (nonlinear_arith)
        requires
            amount_in <= 0xffff_ffff_ffff_ffff,
            reserve_out <= 0xffff_ffff_ffff_ffff,
            u128::MAX == 0xffff_ffff_ffff_ffff_ffff_ffff_ffff_ffff,
    ;
    let product: u128 = (amount_in as u128) * (reserve_out as u128);
    let out: u128 = product / denominator;
    assert(out <= reserve_out) by (nonlinear_arith)
        requires
            out == product / denominator,
            product == amount_in * reserve_out,
            denominator == reserve_in + amount_in,
            denominator > 0,
    ;
    Some(out as u64)
}

/// The least output to accept for an estimate, given the tolerated slippage
/// in percent.
pub fn minimum_amount_out(estimate: u64, slippage_percent: u8) -> (floor: u64)
    ensures
        floor == floor_after_slippage(estimate as nat, slippage_percent as nat),
        floor <= estimate,
{
    if slippage_percent >= 100 {
        return 0;
    }
    let kept: u128 = (100 - slippage_percent) as u128;
    assert(estimate * kept <= u128::MAX) by (nonlinear_arith)
        requires
            estimate <= 0xffff_ffff_ffff_ffff,
            kept <= 100,
            u128::MAX == 0xffff_ffff_ffff_ffff_ffff_ffff_ffff_ffff,
    ;
    let scaled: u128 = (estimate as u128) * kept;
    let floor: u128 = scaled / 100;
    assert(floor <= estimate) by (nonlinear_arith)
        requires
            floor == scaled / 100,
            scaled == estimate * kept,
            0 <= kept <= 100,
    ;
    floor as u64
}

/// The bytes of a `swap_v2` instruction: the discriminant, then the four
/// arguments in order, integers least significant byte first and the flag as
/// one byte.
pub open spec fn swap_data_view(discriminant: Seq<u8>, args: SwapV2) -> Seq<u8> {
    discriminant + le_bytes(args.amount as nat, 8) + le_bytes(
        args.other_amount_threshold as nat,
        8,
    ) + le_bytes(args.sqrt_price_limit_x64 as nat, 16) + seq![
        if args.is_base_input {
            1u8
        } else {
            0u8
        },
    ]
}

/// Calls `borsh::to_vec` on the discriminant followed by the four
/// arguments. Writing into a vector cannot fail, and the encoding lays the
/// discriminant's bytes down as they are, each integer in little-endian
/// order and the flag as the byte 1 or 0.
#[verifier::external_body]
fn borsh_swap_data(discriminant: &[u8; 8], args: &SwapV2) -> (res: Option<Vec<u8>>)
    ensures
        res is Some,
        res->Some_0@ == swap_data_view(discriminant@, *args),
{
    let fields = (
        args.amount,
        args.other_amount_threshold,
        args.sqrt_price_limit_x64,
        args.is_base_input,
    );
    borsh::to_vec(&(*discriminant, fields)).ok()
}

/// The sixteen accounts of a swap, in the order the pool program reads them.
pub open spec fn swap_account_views(
    programs: ProgramIds,
    payer: Seq<u8>,
    pool: PoolAccounts,
    sides: SwapSides,
) -> Seq<AccountMetaView> {
    seq![
        writable(payer, true),
        writable(pool.amm_config@, false),
        writable(pool.pool_state@, false),
        writable(sides.input_token_account@, false),
        writable(sides.output_token_account@, false),
        writable(pool.input_vault@, false),
        writable(pool.output_vault@, false),
        writable(pool.observation_state@, false),
        writable(sides.output_token_program@, false),
        writable(sides.input_token_program@, false),
        writable(programs.memo_program@, false),
        writable(sides.input_mint@, false),
        writable(sides.output_mint@, false),
        writable(programs.swap_extra_first@, false),
        writable(programs.swap_extra_second@, false),
        writable(programs.swap_extra_third@, false),
    ]
}

/// The swap instruction for the given accounts and arguments.
pub open spec fn swap_instruction_view(
    programs: ProgramIds,
    payer: Seq<u8>,
    pool: PoolAccounts,
    sides: SwapSides,
    args: SwapV2,
) -> InstructionView {
    InstructionView {
        program_id: programs.swap_program@,
        accounts: swap_account_views(programs, payer, pool, sides),
        data: swap_data_view(discriminant_of("global"@, "swap_v2"@), args),
    }
}

impl SwapV2 {
    /// Arguments that hand in exactly `amount_in` and accept no less than
    /// `minimum_amount_out`, with no price limit.
    pub fn exact_input(amount_in: u64, minimum_amount_out: u64) -> (args: SwapV2)
        ensures
            args == (SwapV2 {
                amount: amount_in,
                other_amount_threshold: minimum_amount_out,
                sqrt_price_limit_x64: 0,
                is_base_input: true,
            }),
    {
        SwapV2 {
            amount: amount_in,
            other_amount_threshold: minimum_amount_out,
            sqrt_price_limit_x64: 0,
            is_base_input: true,
        }
    }

    /// The arguments encoded behind a discriminant, 41 bytes in all.
    pub fn encode_with(&self, discriminant: &[u8; 8]) -> (data: Vec<u8>)
        ensures
            data@ == swap_data_view(discriminant@, *self),
    {
        match borsh_swap_data(discriminant, self) {
            Some(data) => data,
            None => Vec::new(),
        }
    }

    /// The instruction data: the arguments encoded behind the discriminant
    /// of `global:swap_v2`.
    pub fn instruction_data(&self) -> (data: Vec<u8>)
        ensures
            data@ == swap_data_view(discriminant_of("global"@, "swap_v2"@), *self),
    {
        let discriminant = get_discriminant("global", "swap_v2");
        self.encode_with(&discriminant)
    }
}

/// Builds the swap instruction: the pool program, the sixteen accounts with
/// the payer signing, and the encoded arguments.
pub fn swap_instruction(
    programs: &ProgramIds,
    payer: &Address,
    pool: &PoolAccounts,
    sides: &SwapSides,
    args: &SwapV2,
) -> (ix: Instruction)
    ensures
        ix@ == swap_instruction_view(*programs, payer@, *pool, *sides, *args),
{
    let mut accounts: Vec<AccountMeta> = Vec::new();
    accounts.push(AccountMeta::new(*payer, true));
    accounts.push(AccountMeta::new(pool.amm_config, false));
    accounts.push(AccountMeta::new(pool.pool_state, false));
    accounts.push(AccountMeta::new(sides.input_token_account, false));
    accounts.push(AccountMeta::new(sides.output_token_account, false));
    accounts.push(AccountMeta::new(pool.input_vault, false));
    accounts.push(AccountMeta::new(pool.output_vault, false));
    accounts.push(AccountMeta::new(pool.observation_state, false));
    accounts.push(AccountMeta::new(sides.output_token_program, false));
    accounts.push(AccountMeta::new(sides.input_token_program, false));
    accounts.push(AccountMeta::new(programs.memo_program, false));
    accounts.push(AccountMeta::new(sides.input_mint, false));
    accounts.push(AccountMeta::new(sides.output_mint, false));
    accounts.push(AccountMeta::new(programs.swap_extra_first, false));
    accounts.push(AccountMeta::new(programs.swap_extra_second, false));
    accounts.push(AccountMeta::new(programs.swap_extra_third, false));
    assert(meta_views(accounts@) =~= swap_account_views(*programs, payer@, *pool, *sides));
    let data = args.instruction_data();
    Instruction { program_id: programs.swap_program, accounts, data }
}

} // verus!
