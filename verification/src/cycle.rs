//! One harvest, swap and distribution cycle as a state machine.
//!
//! The machine decides; its driver acts. Every step takes the outcome of the
//! action that the machine asked for last and answers with the next action,
//! until it answers `Finish`. Nothing is carried from one cycle to the next.
//!
//! An action that fails ends the cycle, with three exceptions: a failure to
//! create the payer's reward account is passed over (the swap then fails if
//! the account is missing), and a recipient whose account cannot be created
//! or whose transfer fails is noted while the other recipients are still
//! paid. A cycle with noted recipients ends as failed, once all were tried.

use crate::address::associated_seeds;
use crate::address::base58_decoded;
use crate::address::derived_address;
use crate::address::Address;
use crate::address::AddressError;
use crate::batch::batches_of;
use crate::batch::HARVEST_BATCH_SIZE;
use crate::distribution::holder_views;
use crate::distribution::plan_outcome;
use crate::distribution::DistributionError;
use crate::distribution::HolderBalance;
use crate::distribution::HolderView;
use crate::distribution::PayoutView;
use crate::instruction::create_account_view;
use crate::instruction::harvest_account_views;
use crate::instruction::meta_views;
use crate::instruction::payout_view;
use crate::instruction::AccountMeta;
use crate::instruction::AccountMetaView;
use crate::instruction::Instruction;
use crate::instruction::InstructionView;
use crate::instruction::PayoutInstructions;
use crate::instruction::PayoutInstructionsView;
use crate::programs::decode_all;
use crate::programs::ProgramIds;
use crate::swap::estimated_out;
use crate::swap::floor_after_slippage;
use crate::swap::swap_instruction_view;
use crate::swap::PoolAccounts;
use crate::swap::SwapSides;
use crate::swap::SwapV2;
use vstd::prelude::*;

verus! {

/// What a cycle works with; fixed for the cycle's duration.
#[derive(Clone, Copy, Debug, PartialEq, Eq)]
pub struct CycleConfig {
    /// The admin wallet: it pays fees, collects the harvest and funds the
    /// payouts.
    pub payer: Address,
    /// The program that harvests and withdraws transfer fees.
    pub tax_program: Address,
    /// The taxed mint.
    pub token_mint: Address,
    /// The mint that rewards are paid in.
    pub reward_mint: Address,
    /// The pool that swaps the one for the other.
    pub pool: PoolAccounts,
    /// The fixed programs and accounts.
    pub programs: ProgramIds,
    /// Tolerated slippage in percent; without one the swap sets no floor.
    pub slippage_percent: Option<u8>,
}

/// Where a cycle stands: which outcome it waits for.
#[derive(Clone, Copy, Debug, PartialEq, Eq, Structural)]
pub enum Phase {
    /// Not begun.
    Idle,
    /// Waiting for the admin balance before the harvest.
    PreBalance,
    /// Waiting for the holders whose accounts are harvested.
    HarvestHolders,
    /// Waiting for a harvest batch to be confirmed.
    Harvest,
    /// Waiting for the withdrawal to be confirmed.
    Withdraw,
    /// Waiting for the admin balance after the withdrawal.
    PostBalance,
    /// Waiting to learn whether the payer's reward account exists.
    RewardAccountCheck,
    /// Waiting for the payer's reward account to be created.
    RewardAccountCreate,
    /// Waiting for the balance of the pool's input vault.
    InputReserve,
    /// Waiting for the balance of the pool's output vault.
    OutputReserve,
    /// Waiting for the swap to be confirmed.
    Swap,
    /// Waiting for the payer's reward balance after the swap.
    RewardBalance,
    /// Waiting for the supply of the taxed mint.
    Supply,
    /// Waiting for the holders among whom the rewards are shared.
    PayoutHolders,
    /// Waiting to learn whether a recipient's reward account exists.
    RecipientCheck,
    /// Waiting for a recipient's reward account to be created.
    RecipientCreate,
    /// Waiting for a transfer to be confirmed.
    Transfer,
    /// Ended.
    Done,
}

/// The figures of one cycle.
#[derive(Clone, Copy, Debug, PartialEq, Eq, Structural)]
pub struct CycleResult {
    /// Admin balance before the harvest.
    pub pre_balance: u64,
    /// Admin balance after the withdrawal.
    pub post_balance: u64,
    /// The difference of the two.
    pub harvested: u64,
    /// Payer's reward balance after the swap.
    pub swapped_out: u64,
    /// Number of recipients whose transfer was confirmed.
    pub holders_paid: usize,
}

/// Why a cycle failed.
#[derive(Clone, Copy, Debug, PartialEq, Eq, Structural)]
pub enum CycleError {
    /// The action asked for in this phase failed.
    StepFailed(Phase),
    /// The outcome handed in is not one that this phase waits for.
    UnexpectedEvent(Phase),
    /// A holder's token account is not an address.
    BadAddress(AddressError),
    /// No token account could be derived for the payer.
    NoDerivedAddress,
    /// The admin balance after the withdrawal is below the one before.
    BalanceDecreased,
    /// No plan could be computed.
    Distribution(DistributionError),
    /// Some recipients could not be paid; the others were.
    PayoutsFailed { paid: usize, failed: usize },
}

/// How a cycle ended.
#[derive(Clone, Copy, Debug, PartialEq, Eq, Structural)]
pub enum CycleOutcome {
    /// Nothing was collected, so nothing was swapped or paid.
    NothingHarvested(CycleResult),
    /// The harvest was swapped and every planned recipient paid.
    Distributed(CycleResult),
    /// The cycle was abandoned, or some recipients went unpaid.
    Failed(CycleError),
}

/// The outcome of the action that the machine asked for last.
#[derive(Debug)]
pub enum Event {
    /// The cycle is to begin.
    Begin,
    /// A balance, reserve or supply that was read.
    Amount(u64),
    /// The holders that the indexer listed.
    Holders(Vec<HolderBalance>),
    /// The transaction was confirmed.
    Confirmed,
    /// Whether the account exists.
    AccountFound(bool),
    /// The action failed.
    Failed,
}

/// Mathematical model of an [`Event`].
pub enum EventView {
    Begin,
    Amount(u64),
    Holders(Seq<HolderView>),
    Confirmed,
    AccountFound(bool),
    Failed,
}

impl View for Event {
    type V = EventView;

    open spec fn view(&self) -> EventView {
        match self {
            Event::Begin => EventView::Begin,
            Event::Amount(amount) => EventView::Amount(*amount),
            Event::Holders(holders) => EventView::Holders(holder_views(holders@)),
            Event::Confirmed => EventView::Confirmed,
            Event::AccountFound(found) => EventView::AccountFound(*found),
            Event::Failed => EventView::Failed,
        }
    }
}

/// What the driver is to do next.
#[derive(Debug)]
pub enum Action {
    /// Read the balance of a token account; answer with `Amount`.
    ReadBalance(Address),
    /// Read the supply of a mint; answer with `Amount`.
    ReadSupply(Address),
    /// List the holders of a mint; answer with `Holders`.
    FetchHolders(Address),
    /// Harvest the fees withheld in these accounts; answer with `Confirmed`.
    Harvest(Vec<AccountMeta>),
    /// Withdraw the harvested fees into this account; answer with
    /// `Confirmed`.
    Withdraw(Address),
    /// Look an account up; answer with `AccountFound`.
    CheckAccount(Address),
    /// Sign and send this instruction; answer with `Confirmed`.
    Send(Instruction),
    /// Report the outcome; the cycle is over.
    Finish(CycleOutcome),
}

/// Mathematical model of an [`Action`].
pub enum ActionView {
    ReadBalance(Seq<u8>),
    ReadSupply(Seq<u8>),
    FetchHolders(Seq<u8>),
    Harvest(Seq<AccountMetaView>),
    Withdraw(Seq<u8>),
    CheckAccount(Seq<u8>),
    Send(InstructionView),
    Finish(CycleOutcome),
}

impl View for Action {
    type V = ActionView;

    open spec fn view(&self) -> ActionView {
        match self {
            Action::ReadBalance(account) => ActionView::ReadBalance(account@),
            Action::ReadSupply(mint) => ActionView::ReadSupply(mint@),
            Action::FetchHolders(mint) => ActionView::FetchHolders(mint@),
            Action::Harvest(accounts) => ActionView::Harvest(meta_views(accounts@)),
            Action::Withdraw(account) => ActionView::Withdraw(account@),
            Action::CheckAccount(account) => ActionView::CheckAccount(account@),
            Action::Send(instruction) => ActionView::Send(instruction@),
            Action::Finish(outcome) => ActionView::Finish(*outcome),
        }
    }
}

/// A payout whose instructions could be built.
#[derive(Debug)]
pub struct ReadyPayout {
    /// Place of the payout in the plan.
    pub plan_index: usize,
    /// What paying it takes.
    pub instructions: PayoutInstructions,
}

/// Mathematical model of a [`ReadyPayout`].
pub struct ReadyPayoutView {
    pub plan_index: nat,
    pub instructions: PayoutInstructionsView,
}

impl View for ReadyPayout {
    type V = ReadyPayoutView;

    open spec fn view(&self) -> ReadyPayoutView {
        ReadyPayoutView { plan_index: self.plan_index as nat, instructions: self.instructions@ }
    }
}

/// The models of a list of ready payouts, in order.
pub open spec fn ready_views(ready: Seq<ReadyPayout>) -> Seq<ReadyPayoutView> {
    ready.map_values(|r: ReadyPayout| r@)
}

/// The places held in a list, as numbers.
pub open spec fn index_views(indices: Seq<usize>) -> Seq<nat> {
    indices.map_values(|i: usize| i as nat)
}

/// Mathematical model of a cycle in progress.
pub struct CycleView {
    pub phase: Phase,
    /// The payer's account for the taxed mint.
    pub admin_account: Address,
    /// The payer's account for the reward mint.
    pub reward_account: Address,
    pub pre_balance: u64,
    pub post_balance: u64,
    /// What the harvest brought: the second balance less the first.
    pub harvested: u64,
    /// The harvest batches, and the one in flight.
    pub batches: Seq<Seq<Seq<u8>>>,
    pub next_batch: nat,
    pub input_reserve: u64,
    pub reward_balance: u64,
    pub supply: u64,
    /// The plan, the payouts that could be built, and the one in flight.
    pub plan: Seq<PayoutView>,
    pub ready: Seq<ReadyPayoutView>,
    pub next_ready: nat,
    /// Recipients paid so far, and the plan places of those that were not.
    pub paid: nat,
    pub failed: Seq<nat>,
}

/// A cycle that has not begun, with the payer's two token accounts.
pub open spec fn initial_view(admin_account: Address, reward_account: Address) -> CycleView {
    CycleView {
        phase: Phase::Idle,
        admin_account,
        reward_account,
        pre_balance: 0,
        post_balance: 0,
        harvested: 0,
        batches: Seq::empty(),
        next_batch: 0,
        input_reserve: 0,
        reward_balance: 0,
        supply: 0,
        plan: Seq::empty(),
        ready: Seq::empty(),
        next_ready: 0,
        paid: 0,
        failed: Seq::empty(),
    }
}

/// The figures of a cycle as far as they are known.
pub open spec fn result_of(s: CycleView) -> CycleResult {
    CycleResult {
        pre_balance: s.pre_balance,
        post_balance: s.post_balance,
        harvested: s.harvested,
        swapped_out: s.reward_balance,
        holders_paid: s.paid as usize,
    }
}

/// The cycle ends as failed.
pub open spec fn halt(s: CycleView, error: CycleError) -> (CycleView, ActionView) {
    (CycleView { phase: Phase::Done, ..s }, ActionView::Finish(CycleOutcome::Failed(error)))
}

/// The outcome does not fit the phase: the cycle ends as failed.
pub open spec fn unexpected(s: CycleView) -> (CycleView, ActionView) {
    halt(s, CycleError::UnexpectedEvent(s.phase))
}

/// The account that the associated-token program of the configuration keeps
/// for the payer and `mint` under `token_program`.
pub open spec fn payer_account_of(config: CycleConfig, token_program: Address, mint: Address) -> Option<
    (Seq<u8>, u8),
> {
    derived_address(
        associated_seeds(config.payer@, token_program@, mint@),
        config.programs.associated_token_program@,
    )
}

/// The token accounts of the holders, as texts.
pub open spec fn account_texts(holders: Seq<HolderView>) -> Seq<Seq<char>> {
    holders.map_values(|h: HolderView| h.account)
}

/// The two sides of the cycle's swap: taxed tokens in, reward tokens out.
pub open spec fn swap_sides(config: CycleConfig, s: CycleView) -> SwapSides {
    SwapSides {
        input_token_account: s.admin_account,
        output_token_account: s.reward_account,
        input_mint: config.token_mint,
        output_mint: config.reward_mint,
        input_token_program: config.programs.token_2022_program,
        output_token_program: config.programs.token_program,
    }
}

/// The swap of everything harvested, accepting no less than `minimum_out`.
pub open spec fn swap_step(config: CycleConfig, s: CycleView, minimum_out: u64) -> (
    CycleView,
    ActionView,
) {
    (
        CycleView { phase: Phase::Swap, ..s },
        ActionView::Send(
            swap_instruction_view(
                config.programs,
                config.payer@,
                config.pool,
                swap_sides(config, s),
                SwapV2 {
                    amount: s.harvested,
                    other_amount_threshold: minimum_out,
                    sqrt_price_limit_x64: 0,
                    is_base_input: true,
                },
            ),
        ),
    )
}

/// What follows once the payer's reward account is settled: the swap
/// itself, or first the reading of the reserves for a quote.
pub open spec fn toward_swap(config: CycleConfig, s: CycleView) -> (CycleView, ActionView) {
    if config.slippage_percent is Some {
        (
            CycleView { phase: Phase::InputReserve, ..s },
            ActionView::ReadBalance(config.pool.input_vault@),
        )
    } else {
        swap_step(config, s, 0)
    }
}

/// What paying one planned payout takes, where it can be built: the
/// recipient's text must be an address, and [`payout_view`] must allow it.
pub open spec fn built_payout(config: CycleConfig, payout: PayoutView) -> Option<
    PayoutInstructionsView,
> {
    match base58_decoded(payout.recipient) {
        Ok(recipient) => payout_view(
            config.programs.token_program@,
            config.payer@,
            config.reward_mint@,
            recipient,
            payout.amount,
        ),
        Err(_) => None,
    }
}

/// The payouts among the first `upto` of the plan that can be built, with
/// their places, in plan order.
pub open spec fn ready_payouts(config: CycleConfig, plan: Seq<PayoutView>, upto: nat) -> Seq<
    ReadyPayoutView,
>
    decreases upto,
{
    if upto == 0 {
        Seq::empty()
    } else {
        let before = ready_payouts(config, plan, (upto - 1) as nat);
        match built_payout(config, plan[upto - 1]) {
            Some(instructions) => before.push(
                ReadyPayoutView { plan_index: (upto - 1) as nat, instructions },
            ),
            None => before,
        }
    }
}

/// The places among the first `upto` of the plan whose payouts cannot be
/// built, in plan order.
pub open spec fn unbuilt_payouts(config: CycleConfig, plan: Seq<PayoutView>, upto: nat) -> Seq<nat>
    decreases upto,
{
    if upto == 0 {
        Seq::empty()
    } else {
        let before = unbuilt_payouts(config, plan, (upto - 1) as nat);
        match built_payout(config, plan[upto - 1]) {
            Some(_) => before,
            None => before.push((upto - 1) as nat),
        }
    }
}

/// The cycle ends after the last recipient: as distributed where none was
/// noted, as failed where some were.
pub open spec fn conclude(s: CycleView) -> (CycleView, ActionView) {
    let outcome = if s.failed.len() == 0 {
        CycleOutcome::Distributed(result_of(s))
    } else {
        CycleOutcome::Failed(
            CycleError::PayoutsFailed { paid: s.paid as usize, failed: s.failed.len() as usize },
        )
    };
    (CycleView { phase: Phase::Done, ..s }, ActionView::Finish(outcome))
}

/// Turns to the recipient in flight, or ends the cycle after the last.
pub open spec fn turn_to_recipient(s: CycleView) -> (CycleView, ActionView) {
    if s.next_ready < s.ready.len() {
        (
            CycleView { phase: Phase::RecipientCheck, ..s },
            ActionView::CheckAccount(s.ready[s.next_ready as int].instructions.account),
        )
    } else {
        conclude(s)
    }
}

/// The recipient in flight is noted as unpaid; the next one is turned to.
pub open spec fn note_unpaid(s: CycleView) -> (CycleView, ActionView) {
    turn_to_recipient(
        CycleView {
            failed: s.failed.push(s.ready[s.next_ready as int].plan_index),
            next_ready: s.next_ready + 1,
            ..s
        },
    )
}

/// The transfer to the recipient in flight.
pub open spec fn send_transfer(s: CycleView) -> (CycleView, ActionView) {
    (
        CycleView { phase: Phase::Transfer, ..s },
        ActionView::Send(s.ready[s.next_ready as int].instructions.transfer),
    )
}

/// The harvest of the batch in flight, or the withdrawal after the last.
pub open spec fn turn_to_batch(s: CycleView) -> (CycleView, ActionView) {
    if s.next_batch < s.batches.len() {
        (
            CycleView { phase: Phase::Harvest, ..s },
            ActionView::Harvest(harvest_account_views(s.batches[s.next_batch as int])),
        )
    } else {
        (CycleView { phase: Phase::Withdraw, ..s }, ActionView::Withdraw(s.admin_account@))
    }
}

/// The holders to harvest came in: their accounts are read and batched.
pub open spec fn on_harvest_holders(s: CycleView, holders: Seq<HolderView>) -> (
    CycleView,
    ActionView,
) {
    match decode_all(account_texts(holders)) {
        Err(e) => halt(s, CycleError::BadAddress(e)),
        Ok(accounts) => turn_to_batch(
            CycleView {
                batches: batches_of(accounts, HARVEST_BATCH_SIZE as nat),
                next_batch: 0,
                ..s
            },
        ),
    }
}

/// The balance after the withdrawal came in.
pub open spec fn on_post_balance(s: CycleView, balance: u64) -> (CycleView, ActionView) {
    if balance < s.pre_balance {
        halt(s, CycleError::BalanceDecreased)
    } else if balance == s.pre_balance {
        let ended = CycleView { phase: Phase::Done, post_balance: balance, harvested: 0, ..s };
        (ended, ActionView::Finish(CycleOutcome::NothingHarvested(result_of(ended))))
    } else {
        (
            CycleView {
                phase: Phase::RewardAccountCheck,
                post_balance: balance,
                harvested: (balance - s.pre_balance) as u64,
                ..s
            },
            ActionView::CheckAccount(s.reward_account@),
        )
    }
}

/// The output reserve came in: the quote sets the floor of the swap, which
/// is what the tolerated slippage leaves of the estimate.
pub open spec fn on_output_reserve(config: CycleConfig, s: CycleView, reserve_out: u64) -> (
    CycleView,
    ActionView,
) {
    let estimate = estimated_out(s.harvested as nat, s.input_reserve as nat, reserve_out as nat);
    swap_step(
        config,
        s,
        match config.slippage_percent {
            Some(percent) => floor_after_slippage(estimate, percent as nat) as u64,
            None => 0,
        },
    )
}

/// The holders to pay came in: the plan is computed and its payouts built.
pub open spec fn on_payout_holders(config: CycleConfig, s: CycleView, holders: Seq<HolderView>) -> (
    CycleView,
    ActionView,
) {
    match plan_outcome(holders, s.reward_balance as nat, s.supply as nat) {
        Err(e) => halt(s, CycleError::Distribution(e)),
        Ok(plan) => turn_to_recipient(
            CycleView {
                plan,
                ready: ready_payouts(config, plan, plan.len()),
                next_ready: 0,
                paid: 0,
                failed: unbuilt_payouts(config, plan, plan.len()),
                ..s
            },
        ),
    }
}

/// The step of a cycle: the state and the action that follow from a state
/// and the outcome of its action.
pub open spec fn next(config: CycleConfig, s: CycleView, e: EventView) -> (CycleView, ActionView) {
    match s.phase {
        Phase::Idle => match e {
            EventView::Begin => (
                CycleView { phase: Phase::PreBalance, ..s },
                ActionView::ReadBalance(s.admin_account@),
            ),
            _ => unexpected(s),
        },
        Phase::PreBalance => match e {
            EventView::Amount(balance) => (
                CycleView { phase: Phase::HarvestHolders, pre_balance: balance, ..s },
                ActionView::FetchHolders(config.token_mint@),
            ),
            EventView::Failed => halt(s, CycleError::StepFailed(s.phase)),
            _ => unexpected(s),
        },
        Phase::HarvestHolders => match e {
            EventView::Holders(holders) => on_harvest_holders(s, holders),
            EventView::Failed => halt(s, CycleError::StepFailed(s.phase)),
            _ => unexpected(s),
        },
        Phase::Harvest => match e {
            EventView::Confirmed => turn_to_batch(CycleView { next_batch: s.next_batch + 1, ..s }),
            EventView::Failed => halt(s, CycleError::StepFailed(s.phase)),
            _ => unexpected(s),
        },
        Phase::Withdraw => match e {
            EventView::Confirmed => (
                CycleView { phase: Phase::PostBalance, ..s },
                ActionView::ReadBalance(s.admin_account@),
            ),
            EventView::Failed => halt(s, CycleError::StepFailed(s.phase)),
            _ => unexpected(s),
        },
        Phase::PostBalance => match e {
            EventView::Amount(balance) => on_post_balance(s, balance),
            EventView::Failed => halt(s, CycleError::StepFailed(s.phase)),
            _ => unexpected(s),
        },
        Phase::RewardAccountCheck => match e {
            EventView::AccountFound(true) => toward_swap(config, s),
            EventView::AccountFound(false) => (
                CycleView { phase: Phase::RewardAccountCreate, ..s },
                ActionView::Send(
                    create_account_view(
                        config.payer@,
                        s.reward_account@,
                        config.payer@,
                        config.reward_mint@,
                        config.programs.system_program@,
                        config.programs.token_program@,
                        config.programs.associated_token_program@,
                    ),
                ),
            ),
            EventView::Failed => halt(s, CycleError::StepFailed(s.phase)),
            _ => unexpected(s),
        },
        Phase::RewardAccountCreate => match e {
            EventView::Confirmed => toward_swap(config, s),
            EventView::Failed => toward_swap(config, s),
            _ => unexpected(s),
        },
        Phase::InputReserve => match e {
            EventView::Amount(reserve) => (
                CycleView { phase: Phase::OutputReserve, input_reserve: reserve, ..s },
                ActionView::ReadBalance(config.pool.output_vault@),
            ),
            EventView::Failed => halt(s, CycleError::StepFailed(s.phase)),
            _ => unexpected(s),
        },
        Phase::OutputReserve => match e {
            EventView::Amount(reserve) => on_output_reserve(config, s, reserve),
            EventView::Failed => halt(s, CycleError::StepFailed(s.phase)),
            _ => unexpected(s),
        },
        Phase::Swap => match e {
            EventView::Confirmed => (
                CycleView { phase: Phase::RewardBalance, ..s },
                ActionView::ReadBalance(s.reward_account@),
            ),
            EventView::Failed => halt(s, CycleError::StepFailed(s.phase)),
            _ => unexpected(s),
        },
        Phase::RewardBalance => match e {
            EventView::Amount(balance) => (
                CycleView { phase: Phase::Supply, reward_balance: balance, ..s },
                ActionView::ReadSupply(config.token_mint@),
            ),
            EventView::Failed => halt(s, CycleError::StepFailed(s.phase)),
            _ => unexpected(s),
        },
        Phase::Supply => match e {
            EventView::Amount(supply) => (
                CycleView { phase: Phase::PayoutHolders, supply, ..s },
                ActionView::FetchHolders(config.token_mint@),
            ),
            EventView::Failed => halt(s, CycleError::StepFailed(s.phase)),
            _ => unexpected(s),
        },
        Phase::PayoutHolders => match e {
            EventView::Holders(holders) => on_payout_holders(config, s, holders),
            EventView::Failed => halt(s, CycleError::StepFailed(s.phase)),
            _ => unexpected(s),
        },
        Phase::RecipientCheck => match e {
            EventView::AccountFound(true) => send_transfer(s),
            EventView::AccountFound(false) => (
                CycleView { phase: Phase::RecipientCreate, ..s },
                ActionView::Send(s.ready[s.next_ready as int].instructions.create),
            ),
            EventView::Failed => halt(s, CycleError::StepFailed(s.phase)),
            _ => unexpected(s),
        },
        Phase::RecipientCreate => match e {
            EventView::Confirmed => send_transfer(s),
            EventView::Failed => note_unpaid(s),
            _ => unexpected(s),
        },
        Phase::Transfer => match e {
            EventView::Confirmed => turn_to_recipient(
                CycleView { paid: s.paid + 1, next_ready: s.next_ready + 1, ..s },
            ),
            EventView::Failed => note_unpaid(s),
            _ => unexpected(s),
        },
        Phase::Done => unexpected(s),
    }
}

/// Whether the cycle has not yet measured its harvest.
pub open spec fn before_measuring(phase: Phase) -> bool {
    phase == Phase::Idle || phase == Phase::PreBalance || phase == Phase::HarvestHolders || phase
        == Phase::Harvest || phase == Phase::Withdraw || phase == Phase::PostBalance
}

/// The actions that a run of outcomes draws from the machine, in order.
pub open spec fn actions_of(config: CycleConfig, s: CycleView, events: Seq<EventView>) -> Seq<
    ActionView,
>
    decreases events.len(),
{
    if events.len() == 0 {
        Seq::empty()
    } else {
        let stepped = next(config, s, events[0]);
        seq![stepped.1] + actions_of(config, stepped.0, events.drop_first())
    }
}

/// The state that a run of outcomes leaves the machine in.
pub open spec fn state_after(config: CycleConfig, s: CycleView, events: Seq<EventView>) -> CycleView
    decreases events.len(),
{
    if events.len() == 0 {
        s
    } else {
        state_after(config, next(config, s, events[0]).0, events.drop_first())
    }
}

/// A cycle that has ended stays ended and asks for nothing more.
pub proof fn lemma_done_stays_done(config: CycleConfig, s: CycleView, e: EventView)
    requires
        s.phase == Phase::Done,
    ensures
        next(config, s, e).0 == s,
        next(config, s, e).1 == ActionView::Finish(
            CycleOutcome::Failed(CycleError::UnexpectedEvent(Phase::Done)),
        ),
{
}

/// After a cycle has ended, whatever comes in, every answer is `Finish`.
pub proof fn lemma_nothing_follows_the_end(
    config: CycleConfig,
    s: CycleView,
    events: Seq<EventView>,
    i: int,
)
    requires
        s.phase == Phase::Done,
        0 <= i < events.len(),
    ensures
        actions_of(config, s, events).len() == events.len(),
        actions_of(config, s, events)[i] is Finish,
    decreases events.len(),
{
    lemma_done_stays_done(config, s, events[0]);
    lemma_actions_count(config, s, events);
    if i > 0 {
        lemma_nothing_follows_the_end(config, s, events.drop_first(), i - 1);
    }
}

/// Every outcome draws exactly one action.
pub proof fn lemma_actions_count(config: CycleConfig, s: CycleView, events: Seq<EventView>)
    ensures
        actions_of(config, s, events).len() == events.len(),
    decreases events.len(),
{
    if events.len() > 0 {
        lemma_actions_count(config, next(config, s, events[0]).0, events.drop_first());
    }
}

/// Where the balance after the withdrawal equals the one before, the cycle
/// ends at once, with nothing harvested.
pub proof fn lemma_empty_harvest_ends_the_cycle(config: CycleConfig, s: CycleView)
    requires
        s.phase == Phase::PostBalance,
    ensures
        ({
            let stepped = next(config, s, EventView::Amount(s.pre_balance));
            &&& stepped.0.phase == Phase::Done
            &&& stepped.1 == ActionView::Finish(
                CycleOutcome::NothingHarvested(
                    CycleResult {
                        pre_balance: s.pre_balance,
                        post_balance: s.pre_balance,
                        harvested: 0,
                        swapped_out: s.reward_balance,
                        holders_paid: s.paid as usize,
                    },
                ),
            )
        }),
{
}

/// After an empty harvest, whatever comes in, no swap and no payout is asked
/// for: every answer is `Finish`.
pub proof fn lemma_nothing_follows_an_empty_harvest(
    config: CycleConfig,
    s: CycleView,
    later: Seq<EventView>,
    i: int,
)
    requires
        s.phase == Phase::PostBalance,
        0 <= i < later.len(),
    ensures
        actions_of(config, next(config, s, EventView::Amount(s.pre_balance)).0, later)[i]
            is Finish,
{
    lemma_empty_harvest_ends_the_cycle(config, s);
    lemma_nothing_follows_the_end(
        config,
        next(config, s, EventView::Amount(s.pre_balance)).0,
        later,
        i,
    );
}

/// Until the harvest is measured nothing is sent, and the cycle leaves that
/// stretch only by ending or with a harvest above zero.
pub proof fn lemma_nothing_sent_before_measuring(config: CycleConfig, s: CycleView, e: EventView)
    requires
        before_measuring(s.phase),
    ensures
        !(next(config, s, e).1 is Send),
        before_measuring(next(config, s, e).0.phase) || next(config, s, e).0.phase == Phase::Done
            || (next(config, s, e).0.phase == Phase::RewardAccountCheck && next(
            config,
            s,
            e,
        ).0.harvested > 0),
{
}

/// A failure in any phase but the three that tolerate one ends the cycle as
/// failed in that phase. This holds of the swap in particular.
pub proof fn lemma_failure_ends_the_cycle(config: CycleConfig, s: CycleView)
    requires
        s.phase != Phase::Idle,
        s.phase != Phase::Done,
        s.phase != Phase::RewardAccountCreate,
        s.phase != Phase::RecipientCreate,
        s.phase != Phase::Transfer,
    ensures
        next(config, s, EventView::Failed).0.phase == Phase::Done,
        next(config, s, EventView::Failed).1 == ActionView::Finish(
            CycleOutcome::Failed(CycleError::StepFailed(s.phase)),
        ),
{
}

/// A recipient whose account cannot be created or whose transfer fails does
/// not stop the others: the next recipient is turned to, or the cycle ends
/// as failed after the last.
pub proof fn lemma_failed_payout_is_passed_over(config: CycleConfig, s: CycleView)
    requires
        s.phase == Phase::RecipientCreate || s.phase == Phase::Transfer,
    ensures
        ({
            let stepped = next(config, s, EventView::Failed);
            &&& stepped.0.failed == s.failed.push(s.ready[s.next_ready as int].plan_index)
            &&& stepped.0.next_ready == s.next_ready + 1
            &&& stepped.0.paid == s.paid
            &&& if s.next_ready + 1 < s.ready.len() {
                &&& stepped.0.phase == Phase::RecipientCheck
                &&& stepped.1 == ActionView::CheckAccount(
                    s.ready[s.next_ready as int + 1].instructions.account,
                )
            } else {
                &&& stepped.0.phase == Phase::Done
                &&& stepped.1 == ActionView::Finish(
                    CycleOutcome::Failed(
                        CycleError::PayoutsFailed {
                            paid: s.paid as usize,
                            failed: (s.failed.len() + 1) as usize,
                        },
                    ),
                )
            }
        }),
{
}

/// The batches are harvested one by one in order: a confirmed batch is
/// followed by the next one, and the last by the withdrawal.
pub proof fn lemma_batches_in_order(config: CycleConfig, s: CycleView)
    requires
        s.phase == Phase::Harvest,
    ensures
        ({
            let stepped = next(config, s, EventView::Confirmed);
            if s.next_batch + 1 < s.batches.len() {
                &&& stepped.0.phase == Phase::Harvest
                &&& stepped.0.next_batch == s.next_batch + 1
                &&& stepped.1 == ActionView::Harvest(
                    harvest_account_views(s.batches[s.next_batch as int + 1]),
                )
            } else {
                &&& stepped.0.phase == Phase::Withdraw
                &&& stepped.1 == ActionView::Withdraw(s.admin_account@)
            }
        }),
{
}

/// A run of confirmations, `count` long.
pub open spec fn confirmations(count: nat) -> Seq<EventView> {
    Seq::new(count, |i: int| EventView::Confirmed)
}

/// While batches are left, every confirmation draws the harvest of the next
/// batch: each batch is harvested once, in order, and none is skipped.
pub proof fn lemma_every_batch_is_harvested(config: CycleConfig, s: CycleView, count: nat)
    requires
        s.phase == Phase::Harvest,
        s.next_batch + count < s.batches.len(),
    ensures
        ({
            let after = state_after(config, s, confirmations(count));
            let actions = actions_of(config, s, confirmations(count));
            &&& after.phase == Phase::Harvest
            &&& after.next_batch == s.next_batch + count
            &&& after.batches == s.batches
            &&& after.admin_account == s.admin_account
            &&& actions.len() == count
            &&& forall|i: int|
                0 <= i < count ==> #[trigger] actions[i] == ActionView::Harvest(
                    harvest_account_views(s.batches[s.next_batch + i + 1]),
                )
        }),
    decreases count,
{
    let events = confirmations(count);
    lemma_actions_count(config, s, events);
    if count > 0 {
        let stepped = next(config, s, EventView::Confirmed);
        assert(events[0] == EventView::Confirmed);
        assert(events.drop_first() =~= confirmations((count - 1) as nat));
        lemma_every_batch_is_harvested(config, stepped.0, (count - 1) as nat);
        let actions = actions_of(config, s, events);
        let later = actions_of(config, stepped.0, confirmations((count - 1) as nat));
        assert(actions =~= seq![stepped.1] + later);
        assert forall|i: int| 0 <= i < count implies #[trigger] actions[i] == ActionView::Harvest(
            harvest_account_views(s.batches[s.next_batch + i + 1]),
        ) by {
            if i > 0 {
                assert(actions[i] == later[i - 1]);
            }
        }
    }
}

/// The place of a phase in the order of a cycle: reading the balance,
/// harvesting, withdrawing, measuring, swapping, then paying the
/// recipients, which share one place.
pub open spec fn phase_order(phase: Phase) -> nat {
    match phase {
        Phase::Idle => 0,
        Phase::PreBalance => 1,
        Phase::HarvestHolders => 2,
        Phase::Harvest => 3,
        Phase::Withdraw => 4,
        Phase::PostBalance => 5,
        Phase::RewardAccountCheck => 6,
        Phase::RewardAccountCreate => 7,
        Phase::InputReserve => 8,
        Phase::OutputReserve => 9,
        Phase::Swap => 10,
        Phase::RewardBalance => 11,
        Phase::Supply => 12,
        Phase::PayoutHolders => 13,
        Phase::RecipientCheck => 14,
        Phase::RecipientCreate => 14,
        Phase::Transfer => 14,
        Phase::Done => 15,
    }
}

/// A cycle never goes back: the withdrawal follows the harvest, the swap the
/// withdrawal, and the payouts the swap.
pub proof fn lemma_phases_only_advance(config: CycleConfig, s: CycleView, e: EventView)
    ensures
        phase_order(next(config, s, e).0.phase) >= phase_order(s.phase),
{
}

/// What is sent is the creation of the payer's reward account, the swap, or
/// the creation of a recipient's account or a transfer to one, each in its
/// own phase.
pub proof fn lemma_what_is_sent(config: CycleConfig, s: CycleView, e: EventView)
    requires
        next(config, s, e).1 is Send,
    ensures
        ({
            let after = next(config, s, e).0.phase;
            after == Phase::RewardAccountCreate || after == Phase::Swap || after
                == Phase::RecipientCreate || after == Phase::Transfer
        }),
        next(config, s, e).0.phase == Phase::Swap ==> next(config, s, e).1->Send_0.program_id
            == config.programs.swap_program@,
{
}

} // verus!
