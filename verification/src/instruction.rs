//! Instructions as plain data: a program, the accounts it is handed, and the
//! bytes of its arguments.

use crate::address::associated_seeds;
use crate::address::base58_decoded;
use crate::address::decodes_to;
use crate::address::derived_address;
use crate::address::Address;
use crate::programs::address_views;
use crate::programs::ASSOCIATED_TOKEN_PROGRAM;
use crate::programs::SYSTEM_PROGRAM;
use crate::programs::TOKEN_PROGRAM;
use solana_sdk::pubkey::Pubkey;
use vstd::prelude::*;

verus! {

/// One account of an instruction, and how the instruction may use it.
#[derive(Clone, Copy, Debug, PartialEq, Eq)]
pub struct AccountMeta {
    pub pubkey: Address,
    pub is_signer: bool,
    pub is_writable: bool,
}

/// Mathematical model of an [`AccountMeta`].
pub struct AccountMetaView {
    pub pubkey: Seq<u8>,
    pub is_signer: bool,
    pub is_writable: bool,
}

impl View for AccountMeta {
    type V = AccountMetaView;

    open spec fn view(&self) -> AccountMetaView {
        AccountMetaView {
            pubkey: self.pubkey@,
            is_signer: self.is_signer,
            is_writable: self.is_writable,
        }
    }
}

/// An account that the instruction may write to.
pub open spec fn writable(pubkey: Seq<u8>, is_signer: bool) -> AccountMetaView {
    AccountMetaView { pubkey, is_signer, is_writable: true }
}

/// An account that the instruction only reads.
pub open spec fn readonly(pubkey: Seq<u8>, is_signer: bool) -> AccountMetaView {
    AccountMetaView { pubkey, is_signer, is_writable: false }
}

impl AccountMeta {
    /// A writable account.
    pub fn new(pubkey: Address, is_signer: bool) -> (meta: AccountMeta)
        ensures
            meta@ == writable(pubkey@, is_signer),
    {
        AccountMeta { pubkey, is_signer, is_writable: true }
    }

    /// A read-only account.
    pub fn new_readonly(pubkey: Address, is_signer: bool) -> (meta: AccountMeta)
        ensures
            meta@ == readonly(pubkey@, is_signer),
    {
        AccountMeta { pubkey, is_signer, is_writable: false }
    }
}

/// A call of a program.
#[derive(Clone, Debug, PartialEq, Eq)]
pub struct Instruction {
    pub program_id: Address,
    pub accounts: Vec<AccountMeta>,
    pub data: Vec<u8>,
}

/// Mathematical model of an [`Instruction`].
pub struct InstructionView {
    pub program_id: Seq<u8>,
    pub accounts: Seq<AccountMetaView>,
    pub data: Seq<u8>,
}

/// The models of a list of accounts, in order.
pub open spec fn meta_views(accounts: Seq<AccountMeta>) -> Seq<AccountMetaView> {
    accounts.map_values(|m: AccountMeta| m@)
}

impl View for Instruction {
    type V = InstructionView;

    open spec fn view(&self) -> InstructionView {
        InstructionView {
            program_id: self.program_id@,
            accounts: meta_views(self.accounts@),
            data: self.data@,
        }
    }
}

impl Instruction {
    /// A copy of the instruction.
    pub fn duplicate(&self) -> (copy: Instruction)
        ensures
            copy@ == self@,
    {
        let mut accounts: Vec<AccountMeta> = Vec::new();
        let mut i: usize = 0;
        while i < self.accounts.len()
            invariant
                i <= self.accounts.len(),
                accounts@ == self.accounts@.take(i as int),
            decreases self.accounts.len() - i,
        {
            accounts.push(self.accounts[i]);
            assert(self.accounts@.take(i as int + 1) =~= self.accounts@.take(i as int).push(
                self.accounts@[i as int],
            ));
            i += 1;
        }
        assert(self.accounts@.take(i as int) =~= self.accounts@);
        let mut data: Vec<u8> = Vec::new();
        let mut j: usize = 0;
        while j < self.data.len()
            invariant
                j <= self.data.len(),
                data@ == self.data@.take(j as int),
            decreases self.data.len() - j,
        {
            data.push(self.data[j]);
            assert(self.data@.take(j as int + 1) =~= self.data@.take(j as int).push(
                self.data@[j as int],
            ));
            j += 1;
        }
        assert(self.data@.take(j as int) =~= self.data@);
        Instruction { program_id: self.program_id, accounts, data }
    }
}

/// The `width` low bytes of `value`, least significant first.
pub open spec fn le_bytes(value: nat, width: nat) -> Seq<u8>
    decreases width,
{
    if width == 0 {
        Seq::empty()
    } else {
        seq![(value % 256) as u8] + le_bytes(value / 256, (width - 1) as nat)
    }
}

/// The accounts that a harvest takes besides its fixed ones: every token
/// account, writable and not signing.
pub open spec fn harvest_account_views(token_accounts: Seq<Seq<u8>>) -> Seq<AccountMetaView> {
    token_accounts.map_values(|a: Seq<u8>| writable(a, false))
}

/// Lists the token accounts of one harvest batch as writable, non-signing
/// accounts, in the batch's order.
pub fn harvest_accounts(token_accounts: &Vec<Address>) -> (metas: Vec<AccountMeta>)
    ensures
        meta_views(metas@) == harvest_account_views(address_views(token_accounts@)),
{
    let mut metas: Vec<AccountMeta> = Vec::new();
    let mut i: usize = 0;
    while i < token_accounts.len()
        invariant
            i <= token_accounts.len(),
            meta_views(metas@) == harvest_account_views(
                address_views(token_accounts@.take(i as int)),
            ),
        decreases token_accounts.len() - i,
    {
        let meta = AccountMeta::new(token_accounts[i], false);
        proof {
            metas@.lemma_push_map_commute(|m: AccountMeta| m@, meta);
            let before = token_accounts@.take(i as int);
            before.lemma_push_map_commute(|a: Address| a@, token_accounts@[i as int]);
            address_views(before).lemma_push_map_commute(
                |a: Seq<u8>| writable(a, false),
                token_accounts@[i as int]@,
            );
            assert(token_accounts@.take(i as int + 1) =~= before.push(token_accounts@[i as int]));
        }
        metas.push(meta);
        i += 1;
    }
    assert(token_accounts@.take(i as int) =~= token_accounts@);
    metas
}

/// The instruction that creates the associated token account `account` of
/// `wallet` for `mint`, paid for by `funding`.
pub open spec fn create_account_view(
    funding: Seq<u8>,
    account: Seq<u8>,
    wallet: Seq<u8>,
    mint: Seq<u8>,
    system_program: Seq<u8>,
    token_program: Seq<u8>,
    associated_token_program: Seq<u8>,
) -> InstructionView {
    InstructionView {
        program_id: associated_token_program,
        accounts: seq![
            writable(funding, true),
            writable(account, false),
            readonly(wallet, false),
            readonly(mint, false),
            readonly(system_program, false),
            readonly(token_program, false),
        ],
        data: seq![0u8],
    }
}

/// Builds the instruction that creates the token account `account` of
/// `wallet` for `mint`, from addresses that the caller has derived.
pub fn create_account_instruction(
    funding: &Address,
    account: &Address,
    wallet: &Address,
    mint: &Address,
    system_program: &Address,
    token_program: &Address,
    associated_token_program: &Address,
) -> (ix: Instruction)
    ensures
        ix@ == create_account_view(
            funding@,
            account@,
            wallet@,
            mint@,
            system_program@,
            token_program@,
            associated_token_program@,
        ),
{
    let mut accounts: Vec<AccountMeta> = Vec::new();
    accounts.push(AccountMeta::new(*funding, true));
    accounts.push(AccountMeta::new(*account, false));
    accounts.push(AccountMeta::new_readonly(*wallet, false));
    accounts.push(AccountMeta::new_readonly(*mint, false));
    accounts.push(AccountMeta::new_readonly(*system_program, false));
    accounts.push(AccountMeta::new_readonly(*token_program, false));
    let mut data: Vec<u8> = Vec::new();
    data.push(0u8);
    let ix = Instruction { program_id: *associated_token_program, accounts, data };
    assert(ix@.accounts =~= create_account_view(
        funding@,
        account@,
        wallet@,
        mint@,
        system_program@,
        token_program@,
        associated_token_program@,
    ).accounts);
    assert(ix@.data =~= seq![0u8]);
    ix
}

/// The token account that the associated-token program keeps for `wallet`
/// and `mint` under `token_program`, if the program's fixed text is an
/// address and the derivation finds one.
pub open spec fn associated_account(wallet: Seq<u8>, token_program: Seq<u8>, mint: Seq<u8>) -> Option<
    Seq<u8>,
> {
    match base58_decoded(ASSOCIATED_TOKEN_PROGRAM@) {
        Ok(program) => match derived_address(associated_seeds(wallet, token_program, mint), program) {
            Some(found) => Some(found.0),
            None => None,
        },
        Err(_) => None,
    }
}

/// The plain transfer of `amount` units from `source` to `destination`, with
/// `authority` named as owner and `signer` signing for it.
pub open spec fn transfer_view(
    token_program: Seq<u8>,
    source: Seq<u8>,
    destination: Seq<u8>,
    authority: Seq<u8>,
    signer: Seq<u8>,
    amount: nat,
) -> InstructionView {
    InstructionView {
        program_id: token_program,
        accounts: seq![
            writable(source, false),
            writable(destination, false),
            readonly(authority, false),
            readonly(signer, true),
        ],
        data: seq![3u8] + le_bytes(amount, 8),
    }
}

/// The address that a text decodes to, where it is one.
pub open spec fn decoded_address(text: Seq<char>) -> Seq<u8>
    recommends
        base58_decoded(text) is Ok,
{
    base58_decoded(text)->Ok_0
}

/// The instruction that creates the associated token account of `wallet`
/// for `mint`, under the programs that the fixed texts name.
pub open spec fn associated_create_view(
    funding: Seq<u8>,
    wallet: Seq<u8>,
    mint: Seq<u8>,
    token_program: Seq<u8>,
) -> InstructionView
    recommends
        associated_account(wallet, token_program, mint) is Some,
{
    create_account_view(
        funding,
        associated_account(wallet, token_program, mint)->Some_0,
        wallet,
        mint,
        decoded_address(SYSTEM_PROGRAM@),
        token_program,
        decoded_address(ASSOCIATED_TOKEN_PROGRAM@),
    )
}

/// Calls `spl_token::instruction::transfer` with one signer. It succeeds
/// exactly for the token program whose text is [`TOKEN_PROGRAM`]; the
/// instruction lists source and destination as writable, then the authority
/// and the signer as read-only, and carries the tag 3 and the amount in
/// little-endian order.
#[verifier::external_body]
fn spl_token_transfer(
    token_program: &Address,
    source: &Address,
    destination: &Address,
    authority: &Address,
    signer: &Address,
    amount: u64,
) -> (res: Option<Instruction>)
    ensures
        res is Some <==> decodes_to(TOKEN_PROGRAM@, token_program@),
        res is Some ==> res->Some_0@ == transfer_view(
            token_program@,
            source@,
            destination@,
            authority@,
            signer@,
            amount as nat,
        ),
{
    let key = |a: &Address| Pubkey::new_from_array(a.bytes);
    let (program, from, to) = (key(token_program), key(source), key(destination));
    let signers = [&key(signer)];
    let made =
        spl_token::instruction::transfer(&program, &from, &to, &key(authority), &signers, amount)
            .ok()?;
    let meta = |m: &solana_sdk::instruction::AccountMeta| AccountMeta {
        pubkey: Address { bytes: m.pubkey.to_bytes() },
        is_signer: m.is_signer,
        is_writable: m.is_writable,
    };
    let program_id = Address { bytes: made.program_id.to_bytes() };
    Some(Instruction { program_id, accounts: made.accounts.iter().map(meta).collect(), data: made.data })
}

/// Calls `spl_associated_token_account::instruction::create_associated_token_account`,
/// which derives the account itself and panics where no address can be
/// derived. The instruction is the one of [`create_account_view`] for the
/// derived account, under the programs whose texts are
/// [`ASSOCIATED_TOKEN_PROGRAM`] and [`SYSTEM_PROGRAM`], both of which are
/// addresses.
#[verifier::external_body]
fn spl_create_associated_token_account(
    funding: &Address,
    wallet: &Address,
    mint: &Address,
    token_program: &Address,
) -> (ix: Instruction)
    requires
        associated_account(wallet@, token_program@, mint@) is Some,
    ensures
        decodes_to(ASSOCIATED_TOKEN_PROGRAM@, ix@.program_id),
        decodes_to(SYSTEM_PROGRAM@, ix@.accounts[4].pubkey),
        ix@ == associated_create_view(funding@, wallet@, mint@, token_program@),
{
    let key = |a: &Address| Pubkey::new_from_array(a.bytes);
    let (payer, owner, token) = (key(funding), key(wallet), key(token_program));
    let made = spl_associated_token_account::instruction::create_associated_token_account(
        &payer, &owner, &key(mint), &token,
    );
    let meta = |m: &solana_sdk::instruction::AccountMeta| AccountMeta {
        pubkey: Address { bytes: m.pubkey.to_bytes() },
        is_signer: m.is_signer,
        is_writable: m.is_writable,
    };
    let program_id = Address { bytes: made.program_id.to_bytes() };
    Instruction { program_id, accounts: made.accounts.iter().map(meta).collect(), data: made.data }
}

/// What paying `amount` to `recipient` takes: the recipient's token account,
/// the instruction that creates it, and the transfer into it.
#[derive(Clone, Debug, PartialEq, Eq)]
pub struct PayoutInstructions {
    /// The recipient's token account for the reward mint.
    pub account: Address,
    /// Creates `account`; to be sent only where the account does not exist.
    pub create: Instruction,
    /// Moves the amount from the payer's token account to `account`.
    pub transfer: Instruction,
}

/// Mathematical model of [`PayoutInstructions`].
pub struct PayoutInstructionsView {
    pub account: Seq<u8>,
    pub create: InstructionView,
    pub transfer: InstructionView,
}

impl View for PayoutInstructions {
    type V = PayoutInstructionsView;

    open spec fn view(&self) -> PayoutInstructionsView {
        PayoutInstructionsView {
            account: self.account@,
            create: self.create@,
            transfer: self.transfer@,
        }
    }
}

/// What paying `amount` to `recipient` takes, where it can be built: the
/// token program must be the one that [`TOKEN_PROGRAM`] names, and both the
/// payer's and the recipient's token account must be derivable.
pub open spec fn payout_view(
    token_program: Seq<u8>,
    payer: Seq<u8>,
    reward_mint: Seq<u8>,
    recipient: Seq<u8>,
    amount: nat,
) -> Option<PayoutInstructionsView> {
    let source = associated_account(payer, token_program, reward_mint);
    let destination = associated_account(recipient, token_program, reward_mint);
    if decodes_to(TOKEN_PROGRAM@, token_program) && source is Some && destination is Some {
        Some(
            PayoutInstructionsView {
                account: destination->Some_0,
                create: associated_create_view(payer, recipient, reward_mint, token_program),
                transfer: transfer_view(
                    token_program,
                    source->Some_0,
                    destination->Some_0,
                    payer,
                    payer,
                    amount,
                ),
            },
        )
    } else {
        None
    }
}

/// Builds what paying one recipient takes: see [`payout_view`].
pub fn payout_instructions(
    token_program: &Address,
    payer: &Address,
    reward_mint: &Address,
    recipient: &Address,
    amount: u64,
) -> (res: Option<PayoutInstructions>)
    ensures
        match res {
            Some(made) => payout_view(
                token_program@,
                payer@,
                reward_mint@,
                recipient@,
                amount as nat,
            ) == Some(made@),
            None => payout_view(token_program@, payer@, reward_mint@, recipient@, amount as nat)
                is None,
        },
{
    let program = match Address::parse(ASSOCIATED_TOKEN_PROGRAM) {
        Ok(program) => program,
        Err(_) => {
            return None;
        },
    };
    let source = match Address::associated(payer, token_program, reward_mint, &program) {
        Some(source) => source,
        None => {
            return None;
        },
    };
    let destination = match Address::associated(recipient, token_program, reward_mint, &program) {
        Some(destination) => destination,
        None => {
            return None;
        },
    };
    let transfer = match spl_token_transfer(
        token_program,
        &source,
        &destination,
        payer,
        payer,
        amount,
    ) {
        Some(transfer) => transfer,
        None => {
            return None;
        },
    };
    let create = spl_create_associated_token_account(payer, recipient, reward_mint, token_program);
    Some(PayoutInstructions { account: destination, create, transfer })
}

} // verus!
