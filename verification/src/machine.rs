//! The cycle's state machine in executable form: it keeps the state that
//! [`crate::cycle::next`] speaks of and takes the steps that it prescribes.

use crate::address::Address;
use crate::batch::batch_views;
use crate::batch::harvest_batches;
use crate::batch::lemma_batches_of_mapped;
use crate::batch::HARVEST_BATCH_SIZE;
use crate::cycle::account_texts;
use crate::cycle::built_payout;
use crate::cycle::conclude;
use crate::cycle::halt;
use crate::cycle::index_views;
use crate::cycle::initial_view;
use crate::cycle::next;
use crate::cycle::note_unpaid;
use crate::cycle::on_harvest_holders;
use crate::cycle::on_output_reserve;
use crate::cycle::on_payout_holders;
use crate::cycle::on_post_balance;
use crate::cycle::payer_account_of;
use crate::cycle::ready_payouts;
use crate::cycle::ready_views;
use crate::cycle::result_of;
use crate::cycle::send_transfer;
use crate::cycle::swap_step;
use crate::cycle::toward_swap;
use crate::cycle::turn_to_batch;
use crate::cycle::turn_to_recipient;
use crate::cycle::unbuilt_payouts;
use crate::cycle::unexpected;
use crate::cycle::Action;
use crate::cycle::CycleConfig;
use crate::cycle::CycleError;
use crate::cycle::CycleOutcome;
use crate::cycle::CycleResult;
use crate::cycle::CycleView;
use crate::cycle::Event;
use crate::cycle::Phase;
use crate::cycle::ReadyPayout;
use crate::distribution::holder_views;
use crate::distribution::DistributionPlan;
use crate::distribution::HolderBalance;
use crate::instruction::create_account_instruction;
use crate::instruction::harvest_accounts;
use crate::instruction::payout_instructions;
use crate::programs::address_views;
use crate::programs::parse_all;
use crate::programs::text_views;
use crate::swap::estimate_amount_out;
use crate::swap::minimum_amount_out;
use crate::swap::swap_instruction;
use crate::swap::SwapSides;
use crate::swap::SwapV2;
use vstd::prelude::*;

verus! {

/// A cycle in progress.
#[derive(Debug)]
pub struct Cycle {
    config: CycleConfig,
    phase: Phase,
    admin_account: Address,
    reward_account: Address,
    pre_balance: u64,
    post_balance: u64,
    harvested: u64,
    batches: Vec<Vec<Address>>,
    next_batch: usize,
    input_reserve: u64,
    reward_balance: u64,
    supply: u64,
    plan: DistributionPlan,
    ready: Vec<ReadyPayout>,
    next_ready: usize,
    paid: usize,
    failed: Vec<usize>,
}

/// The byte strings of the accounts of a list of batches.
pub open spec fn batch_bytes(batches: Seq<Vec<Address>>) -> Seq<Seq<Seq<u8>>> {
    batches.map_values(|batch: Vec<Address>| address_views(batch@))
}

impl View for Cycle {
    type V = CycleView;

    closed spec fn view(&self) -> CycleView {
        CycleView {
            phase: self.phase,
            admin_account: self.admin_account,
            reward_account: self.reward_account,
            pre_balance: self.pre_balance,
            post_balance: self.post_balance,
            harvested: self.harvested,
            batches: batch_bytes(self.batches@),
            next_batch: self.next_batch as nat,
            input_reserve: self.input_reserve,
            reward_balance: self.reward_balance,
            supply: self.supply,
            plan: self.plan@,
            ready: ready_views(self.ready@),
            next_ready: self.next_ready as nat,
            paid: self.paid as nat,
            failed: index_views(self.failed@),
        }
    }
}

impl Cycle {
    /// The configuration that the cycle was made with.
    pub closed spec fn config(&self) -> CycleConfig {
        self.config
    }

    /// What every cycle keeps: the batch and the recipient in flight exist,
    /// no more recipients are counted as paid than were turned to, and a
    /// swap is prepared only for a harvest above zero.
    #[verifier::type_invariant]
    spec fn consistent(&self) -> bool {
        &&& self.phase == Phase::Harvest ==> self.next_batch < self.batches.len()
        &&& (self.phase == Phase::RewardAccountCheck || self.phase == Phase::RewardAccountCreate
            || self.phase == Phase::InputReserve || self.phase == Phase::OutputReserve)
            ==> self.harvested > 0
        &&& (self.phase == Phase::RecipientCheck || self.phase == Phase::RecipientCreate
            || self.phase == Phase::Transfer) ==> self.next_ready < self.ready.len()
        &&& self.paid <= self.next_ready <= self.ready.len()
    }

    /// Makes a cycle that has not begun, deriving the payer's token
    /// accounts for the taxed mint and for the reward mint.
    pub fn new(config: CycleConfig) -> (res: Result<Cycle, CycleError>)
        ensures
            match res {
                Ok(cycle) => {
                    let admin = payer_account_of(
                        config,
                        config.programs.token_2022_program,
                        config.token_mint,
                    );
                    let reward = payer_account_of(
                        config,
                        config.programs.token_program,
                        config.reward_mint,
                    );
                    &&& cycle.config() == config
                    &&& admin is Some
                    &&& reward is Some
                    &&& cycle@.admin_account@ == admin->Some_0.0
                    &&& cycle@.reward_account@ == reward->Some_0.0
                    &&& cycle@ == initial_view(cycle@.admin_account, cycle@.reward_account)
                },
                Err(e) => {
                    &&& e == CycleError::NoDerivedAddress
                    &&& (payer_account_of(
                        config,
                        config.programs.token_2022_program,
                        config.token_mint,
                    ) is None || payer_account_of(
                        config,
                        config.programs.token_program,
                        config.reward_mint,
                    ) is None)
                },
            },
    {
        let admin_account = match Address::associated(
            &config.payer,
            &config.programs.token_2022_program,
            &config.token_mint,
            &config.programs.associated_token_program,
        ) {
            Some(account) => account,
            None => {
                return Err(CycleError::NoDerivedAddress);
            },
        };
        let reward_account = match Address::associated(
            &config.payer,
            &config.programs.token_program,
            &config.reward_mint,
            &config.programs.associated_token_program,
        ) {
            Some(account) => account,
            None => {
                return Err(CycleError::NoDerivedAddress);
            },
        };
        let cycle = Cycle {
            config,
            phase: Phase::Idle,
            admin_account,
            reward_account,
            pre_balance: 0,
            post_balance: 0,
            harvested: 0,
            batches: Vec::new(),
            next_batch: 0,
            input_reserve: 0,
            reward_balance: 0,
            supply: 0,
            plan: DistributionPlan::empty(),
            ready: Vec::new(),
            next_ready: 0,
            paid: 0,
            failed: Vec::new(),
        };
        assert(cycle@.batches =~= Seq::<Seq<Seq<u8>>>::empty());
        assert(cycle@.ready =~= Seq::empty());
        assert(cycle@.failed =~= Seq::<nat>::empty());
        Ok(cycle)
    }

    /// The phase that the cycle is in.
    pub fn phase(&self) -> (phase: Phase)
        ensures
            phase == self@.phase,
    {
        self.phase
    }

    /// The payer's token account for the taxed mint.
    pub fn admin_account(&self) -> (account: Address)
        ensures
            account == self@.admin_account,
    {
        self.admin_account
    }

    /// The payer's token account for the reward mint.
    pub fn reward_account(&self) -> (account: Address)
        ensures
            account == self@.reward_account,
    {
        self.reward_account
    }

    /// The figures of the cycle as far as they are known.
    pub fn result(&self) -> (result: CycleResult)
        ensures
            result == result_of(self@),
    {
        CycleResult {
            pre_balance: self.pre_balance,
            post_balance: self.post_balance,
            harvested: self.harvested,
            swapped_out: self.reward_balance,
            holders_paid: self.paid,
        }
    }

    /// The plan that the cycle computed; empty before it did.
    pub fn plan(&self) -> (plan: &DistributionPlan)
        ensures
            plan@ == self@.plan,
    {
        &self.plan
    }

    /// The places in the plan of the recipients that went unpaid so far.
    pub fn unpaid(&self) -> (failed: &Vec<usize>)
        ensures
            index_views(failed@) == self@.failed,
    {
        &self.failed
    }

    /// Ends the cycle as failed.
    fn halt(&mut self, error: CycleError) -> (action: Action)
        ensures
            final(self).config() == old(self).config(),
            final(self)@ == halt(old(self)@, error).0,
            action@ == halt(old(self)@, error).1,
    {
        proof {
            use_type_invariant(&*self);
        }
        self.phase = Phase::Done;
        Action::Finish(CycleOutcome::Failed(error))
    }

    /// Ends the cycle because the outcome does not fit the phase.
    fn unexpected(&mut self) -> (action: Action)
        ensures
            final(self).config() == old(self).config(),
            final(self)@ == unexpected(old(self)@).0,
            action@ == unexpected(old(self)@).1,
    {
        proof {
            use_type_invariant(&*self);
        }
        let phase = self.phase;
        self.halt(CycleError::UnexpectedEvent(phase))
    }

    /// Harvests the batch in flight, or withdraws after the last.
    fn turn_to_batch(&mut self) -> (action: Action)
        ensures
            final(self).config() == old(self).config(),
            final(self)@ == turn_to_batch(old(self)@).0,
            action@ == turn_to_batch(old(self)@).1,
    {
        proof {
            use_type_invariant(&*self);
        }
        if self.next_batch < self.batches.len() {
            self.phase = Phase::Harvest;
            Action::Harvest(harvest_accounts(&self.batches[self.next_batch]))
        } else {
            self.phase = Phase::Withdraw;
            Action::Withdraw(self.admin_account)
        }
    }

    /// Sends the swap of everything harvested.
    fn swap_step(&mut self, minimum_out: u64) -> (action: Action)
        ensures
            final(self).config() == old(self).config(),
            final(self)@ == swap_step(old(self).config(), old(self)@, minimum_out).0,
            action@ == swap_step(old(self).config(), old(self)@, minimum_out).1,
    {
        proof {
            use_type_invariant(&*self);
        }
        let sides = SwapSides {
            input_token_account: self.admin_account,
            output_token_account: self.reward_account,
            input_mint: self.config.token_mint,
            output_mint: self.config.reward_mint,
            input_token_program: self.config.programs.token_2022_program,
            output_token_program: self.config.programs.token_program,
        };
        let args = SwapV2::exact_input(self.harvested, minimum_out);
        let instruction = swap_instruction(
            &self.config.programs,
            &self.config.payer,
            &self.config.pool,
            &sides,
            &args,
        );
        self.phase = Phase::Swap;
        Action::Send(instruction)
    }

    /// Goes on to the swap, by way of the reserves where a quote is wanted.
    fn toward_swap(&mut self) -> (action: Action)
        requires
            old(self).harvested > 0,
        ensures
            final(self).config() == old(self).config(),
            final(self)@ == toward_swap(old(self).config(), old(self)@).0,
            action@ == toward_swap(old(self).config(), old(self)@).1,
    {
        proof {
            use_type_invariant(&*self);
        }
        match self.config.slippage_percent {
            Some(_) => {
                self.phase = Phase::InputReserve;
                Action::ReadBalance(self.config.pool.input_vault)
            },
            None => self.swap_step(0),
        }
    }

    /// Ends the cycle after the last recipient.
    fn conclude(&mut self) -> (action: Action)
        ensures
            final(self).config() == old(self).config(),
            final(self)@ == conclude(old(self)@).0,
            action@ == conclude(old(self)@).1,
    {
        proof {
            use_type_invariant(&*self);
        }
        let outcome = if self.failed.len() == 0 {
            CycleOutcome::Distributed(self.result())
        } else {
            CycleOutcome::Failed(
                CycleError::PayoutsFailed { paid: self.paid, failed: self.failed.len() },
            )
        };
        self.phase = Phase::Done;
        Action::Finish(outcome)
    }

    /// Turns to the recipient in flight, or ends the cycle after the last.
    fn turn_to_recipient(&mut self) -> (action: Action)
        ensures
            final(self).config() == old(self).config(),
            final(self)@ == turn_to_recipient(old(self)@).0,
            action@ == turn_to_recipient(old(self)@).1,
    {
        proof {
            use_type_invariant(&*self);
        }
        if self.next_ready < self.ready.len() {
            self.phase = Phase::RecipientCheck;
            Action::CheckAccount(self.ready[self.next_ready].instructions.account)
        } else {
            self.conclude()
        }
    }

    /// Notes the recipient in flight as unpaid and turns to the next.
    fn note_unpaid(&mut self) -> (action: Action)
        requires
            old(self).next_ready < old(self).ready.len(),
        ensures
            final(self).config() == old(self).config(),
            final(self)@ == note_unpaid(old(self)@).0,
            action@ == note_unpaid(old(self)@).1,
    {
        proof {
            use_type_invariant(&*self);
        }
        let place: usize = self.ready[self.next_ready].plan_index;
        let mut failed: Vec<usize> = Vec::new();
        std::mem::swap(&mut self.failed, &mut failed);
        proof {
            failed@.lemma_push_map_commute(|i: usize| i as nat, place);
        }
        failed.push(place);
        self.failed = failed;
        self.phase = Phase::Done;
        self.next_ready = self.next_ready + 1;
        self.turn_to_recipient()
    }

    /// Sends the transfer to the recipient in flight.
    fn send_transfer(&mut self) -> (action: Action)
        requires
            old(self).next_ready < old(self).ready.len(),
        ensures
            final(self).config() == old(self).config(),
            final(self)@ == send_transfer(old(self)@).0,
            action@ == send_transfer(old(self)@).1,
    {
        proof {
            use_type_invariant(&*self);
        }
        self.phase = Phase::Transfer;
        Action::Send(self.ready[self.next_ready].instructions.transfer.duplicate())
    }
    /// Reads the holders' token accounts and splits them into batches.
    fn on_harvest_holders(&mut self, holders: &Vec<HolderBalance>) -> (action: Action)
        ensures
            final(self).config() == old(self).config(),
            final(self)@ == on_harvest_holders(old(self)@, holder_views(holders@)).0,
            action@ == on_harvest_holders(old(self)@, holder_views(holders@)).1,
    {
        proof {
            use_type_invariant(&*self);
        }
        let mut texts: Vec<String> = Vec::new();
        let mut i: usize = 0;
        let ghost wanted = account_texts(holder_views(holders@));
        assert(text_views(texts@) =~= wanted.take(0));
        while i < holders.len()
            invariant
                i <= holders.len(),
                wanted == account_texts(holder_views(holders@)),
                text_views(texts@) == wanted.take(i as int),
            decreases holders.len() - i,
        {
            let text = holders[i].account.clone();
            proof {
                texts@.lemma_push_map_commute(|t: String| t@, text);
                assert(wanted.take(i as int + 1) =~= wanted.take(i as int).push(wanted[i as int]));
            }
            texts.push(text);
            i += 1;
        }
        assert(wanted.take(i as int) =~= wanted);
        match parse_all(&texts) {
            Err(e) => self.halt(CycleError::BadAddress(e)),
            Ok(accounts) => {
                let batches = harvest_batches(&accounts, HARVEST_BATCH_SIZE);
                proof {
                    lemma_batches_of_mapped(
                        accounts@,
                        HARVEST_BATCH_SIZE as nat,
                        |a: Address| a@,
                    );
                    assert(batch_bytes(batches@) =~= batch_views(batches@).map_values(
                        |batch: Seq<Address>| batch.map_values(|a: Address| a@),
                    ));
                }
                self.phase = Phase::Done;
                self.batches = batches;
                self.next_batch = 0;
                self.turn_to_batch()
            },
        }
    }

    /// Measures the harvest and decides whether there is anything to swap.
    fn on_post_balance(&mut self, balance: u64) -> (action: Action)
        ensures
            final(self).config() == old(self).config(),
            final(self)@ == on_post_balance(old(self)@, balance).0,
            action@ == on_post_balance(old(self)@, balance).1,
    {
        proof {
            use_type_invariant(&*self);
        }
        if balance < self.pre_balance {
            self.halt(CycleError::BalanceDecreased)
        } else if balance == self.pre_balance {
            self.phase = Phase::Done;
            self.post_balance = balance;
            self.harvested = 0;
            Action::Finish(CycleOutcome::NothingHarvested(self.result()))
        } else {
            self.post_balance = balance;
            self.harvested = balance - self.pre_balance;
            self.phase = Phase::RewardAccountCheck;
            Action::CheckAccount(self.reward_account)
        }
    }

    /// Quotes the swap from the reserves and sends it with the floor that
    /// the tolerated slippage leaves.
    fn on_output_reserve(&mut self, reserve_out: u64) -> (action: Action)
        requires
            old(self).phase == Phase::OutputReserve,
        ensures
            final(self).config() == old(self).config(),
            final(self)@ == on_output_reserve(old(self).config(), old(self)@, reserve_out).0,
            action@ == on_output_reserve(old(self).config(), old(self)@, reserve_out).1,
    {
        proof {
            use_type_invariant(&*self);
        }
        let slippage: u8 = match self.config.slippage_percent {
            Some(slippage) => slippage,
            None => {
                return self.swap_step(0);
            },
        };
        let floor: u64 = match estimate_amount_out(self.harvested, self.input_reserve, reserve_out) {
            Some(estimate) => minimum_amount_out(estimate, slippage),
            None => 0,
        };
        self.swap_step(floor)
    }

    /// Builds the instructions of every payout of the plan that allows it
    /// and notes the places of the others.
    fn prepare(&mut self)
        requires
            old(self).phase == Phase::PayoutHolders,
        ensures
            final(self).config() == old(self).config(),
            final(self)@ == (CycleView {
                ready: ready_payouts(old(self).config(), old(self)@.plan, old(self)@.plan.len()),
                next_ready: 0,
                paid: 0,
                failed: unbuilt_payouts(old(self).config(), old(self)@.plan, old(self)@.plan.len()),
                ..old(self)@
            }),
            final(self).paid == 0,
            final(self).next_ready == 0,
    {
        proof {
            use_type_invariant(&*self);
        }
        let mut ready: Vec<ReadyPayout> = Vec::new();
        let mut failed: Vec<usize> = Vec::new();
        let mut i: usize = 0;
        let ghost plan = self.plan@;
        let ghost config = self.config;
        assert(ready_views(ready@) =~= Seq::empty());
        assert(index_views(failed@) =~= Seq::<nat>::empty());
        let count: usize = self.plan.len();
        while i < count
            invariant
                i <= count,
                count == plan.len(),
                plan == self.plan@,
                config == self.config,
                *self == *old(self),
                ready_views(ready@) == ready_payouts(config, plan, i as nat),
                index_views(failed@) == unbuilt_payouts(config, plan, i as nat),
            decreases count - i,
        {
            let built = match self.plan.get(i) {
                None => None,
                Some(payout) => match Address::parse(payout.recipient.as_str()) {
                    Err(_) => None,
                    Ok(recipient) => payout_instructions(
                        &self.config.programs.token_program,
                        &self.config.payer,
                        &self.config.reward_mint,
                        &recipient,
                        payout.amount,
                    ),
                },
            };
            assert(match built {
                Some(made) => built_payout(config, plan[i as int]) == Some(made@),
                None => built_payout(config, plan[i as int]) is None,
            });
            match built {
                Some(instructions) => {
                    let entry = ReadyPayout { plan_index: i, instructions };
                    proof {
                        ready@.lemma_push_map_commute(|r: ReadyPayout| r@, entry);
                    }
                    ready.push(entry);
                },
                None => {
                    proof {
                        failed@.lemma_push_map_commute(|k: usize| k as nat, i);
                    }
                    failed.push(i);
                },
            }
            i += 1;
        }
        self.phase = Phase::Done;
        self.paid = 0;
        self.next_ready = 0;
        self.ready = ready;
        self.failed = failed;
        self.phase = Phase::PayoutHolders;
    }

    /// Computes the plan, builds its payouts and turns to the first.
    fn on_payout_holders(&mut self, holders: &Vec<HolderBalance>) -> (action: Action)
        requires
            old(self).phase == Phase::PayoutHolders,
        ensures
            final(self).config() == old(self).config(),
            final(self)@ == on_payout_holders(
                old(self).config(),
                old(self)@,
                holder_views(holders@),
            ).0,
            action@ == on_payout_holders(old(self).config(), old(self)@, holder_views(holders@)).1,
    {
        proof {
            use_type_invariant(&*self);
        }
        match DistributionPlan::compute(holders, self.reward_balance, self.supply) {
            Err(e) => self.halt(CycleError::Distribution(e)),
            Ok(plan) => {
                self.plan = plan;
                self.prepare();
                self.turn_to_recipient()
            },
        }
    }

    /// Takes the outcome of the action asked for last and answers with the
    /// next action, as [`next`] prescribes.
    pub fn step(&mut self, event: Event) -> (action: Action)
        ensures
            final(self).config() == old(self).config(),
            final(self)@ == next(old(self).config(), old(self)@, event@).0,
            action@ == next(old(self).config(), old(self)@, event@).1,
    {
        proof {
            use_type_invariant(&*self);
        }
        match self.phase {
            Phase::Idle => match event {
                Event::Begin => {
                    self.phase = Phase::PreBalance;
                    Action::ReadBalance(self.admin_account)
                },
                _ => self.unexpected(),
            },
            Phase::PreBalance => match event {
                Event::Amount(balance) => {
                    self.pre_balance = balance;
                    self.phase = Phase::HarvestHolders;
                    Action::FetchHolders(self.config.token_mint)
                },
                Event::Failed => self.halt(CycleError::StepFailed(Phase::PreBalance)),
                _ => self.unexpected(),
            },
            Phase::HarvestHolders => match event {
                Event::Holders(holders) => self.on_harvest_holders(&holders),
                Event::Failed => self.halt(CycleError::StepFailed(Phase::HarvestHolders)),
                _ => self.unexpected(),
            },
            Phase::Harvest => match event {
                Event::Confirmed => {
                    self.phase = Phase::Done;
                    self.next_batch = self.next_batch + 1;
                    self.turn_to_batch()
                },
                Event::Failed => self.halt(CycleError::StepFailed(Phase::Harvest)),
                _ => self.unexpected(),
            },
            Phase::Withdraw => match event {
                Event::Confirmed => {
                    self.phase = Phase::PostBalance;
                    Action::ReadBalance(self.admin_account)
                },
                Event::Failed => self.halt(CycleError::StepFailed(Phase::Withdraw)),
                _ => self.unexpected(),
            },
            Phase::PostBalance => match event {
                Event::Amount(balance) => self.on_post_balance(balance),
                Event::Failed => self.halt(CycleError::StepFailed(Phase::PostBalance)),
                _ => self.unexpected(),
            },
            Phase::RewardAccountCheck => match event {
                Event::AccountFound(true) => self.toward_swap(),
                Event::AccountFound(false) => {
                    self.phase = Phase::RewardAccountCreate;
                    Action::Send(
                        create_account_instruction(
                            &self.config.payer,
                            &self.reward_account,
                            &self.config.payer,
                            &self.config.reward_mint,
                            &self.config.programs.system_program,
                            &self.config.programs.token_program,
                            &self.config.programs.associated_token_program,
                        ),
                    )
                },
                Event::Failed => self.halt(CycleError::StepFailed(Phase::RewardAccountCheck)),
                _ => self.unexpected(),
            },
            Phase::RewardAccountCreate => match event {
                Event::Confirmed => self.toward_swap(),
                Event::Failed => self.toward_swap(),
                _ => self.unexpected(),
            },
            Phase::InputReserve => match event {
                Event::Amount(reserve) => {
                    self.input_reserve = reserve;
                    self.phase = Phase::OutputReserve;
                    Action::ReadBalance(self.config.pool.output_vault)
                },
                Event::Failed => self.halt(CycleError::StepFailed(Phase::InputReserve)),
                _ => self.unexpected(),
            },
            Phase::OutputReserve => match event {
                Event::Amount(reserve) => self.on_output_reserve(reserve),
                Event::Failed => self.halt(CycleError::StepFailed(Phase::OutputReserve)),
                _ => self.unexpected(),
            },
            Phase::Swap => match event {
                Event::Confirmed => {
                    self.phase = Phase::RewardBalance;
                    Action::ReadBalance(self.reward_account)
                },
                Event::Failed => self.halt(CycleError::StepFailed(Phase::Swap)),
                _ => self.unexpected(),
            },
            Phase::RewardBalance => match event {
                Event::Amount(balance) => {
                    self.reward_balance = balance;
                    self.phase = Phase::Supply;
                    Action::ReadSupply(self.config.token_mint)
                },
                Event::Failed => self.halt(CycleError::StepFailed(Phase::RewardBalance)),
                _ => self.unexpected(),
            },
            Phase::Supply => match event {
                Event::Amount(supply) => {
                    self.supply = supply;
                    self.phase = Phase::PayoutHolders;
                    Action::FetchHolders(self.config.token_mint)
                },
                Event::Failed => self.halt(CycleError::StepFailed(Phase::Supply)),
                _ => self.unexpected(),
            },
            Phase::PayoutHolders => match event {
                Event::Holders(holders) => self.on_payout_holders(&holders),
                Event::Failed => self.halt(CycleError::StepFailed(Phase::PayoutHolders)),
                _ => self.unexpected(),
            },
            Phase::RecipientCheck => match event {
                Event::AccountFound(true) => self.send_transfer(),
                Event::AccountFound(false) => {
                    self.phase = Phase::RecipientCreate;
                    Action::Send(self.ready[self.next_ready].instructions.create.duplicate())
                },
                Event::Failed => self.halt(CycleError::StepFailed(Phase::RecipientCheck)),
                _ => self.unexpected(),
            },
            Phase::RecipientCreate => match event {
                Event::Confirmed => self.send_transfer(),
                Event::Failed => self.note_unpaid(),
                _ => self.unexpected(),
            },
            Phase::Transfer => match event {
                Event::Confirmed => {
                    self.phase = Phase::Done;
                    self.next_ready = self.next_ready + 1;
                    self.paid = self.paid + 1;
                    self.turn_to_recipient()
                },
                Event::Failed => self.note_unpaid(),
                _ => self.unexpected(),
            },
            Phase::Done => self.unexpected(),
        }
    }
}

} // verus!
