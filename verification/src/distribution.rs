//! Pro-rata apportionment of a reward pool over a snapshot of holder balances.
//!
//! Every holder is owed `floor(balance * total_rewards / total_supply)`.
//! Holders whose share rounds down to zero are left out of the plan, and the
//! remainder lost to rounding is never handed out again: it stays with the
//! payer.

use vstd::prelude::*;

verus! {

/// One token account of the taxed mint, as the indexer reports it.
#[derive(Debug)]
pub struct HolderBalance {
    /// Address of the token account.
    pub account: String,
    /// Address of the wallet that owns the token account.
    pub owner: String,
    /// Raw balance of the token account.
    pub balance: u64,
}

/// Mathematical model of a [`HolderBalance`].
pub struct HolderView {
    pub account: Seq<char>,
    pub owner: Seq<char>,
    pub balance: nat,
}

impl View for HolderBalance {
    type V = HolderView;

    open spec fn view(&self) -> HolderView {
        HolderView { account: self.account@, owner: self.owner@, balance: self.balance as nat }
    }
}

/// One transfer of the plan: `amount` units of the reward token to `recipient`.
#[derive(Debug)]
pub struct Payout {
    /// Wallet that receives the reward.
    pub recipient: String,
    /// Units of the reward token, never zero inside a plan.
    pub amount: u64,
}

/// Mathematical model of a [`Payout`].
pub struct PayoutView {
    pub recipient: Seq<char>,
    pub amount: nat,
}

impl View for Payout {
    type V = PayoutView;

    open spec fn view(&self) -> PayoutView {
        PayoutView { recipient: self.recipient@, amount: self.amount as nat }
    }
}

/// Why no plan could be computed.
#[derive(Debug, Clone, Copy, PartialEq, Eq, Structural)]
pub enum DistributionError {
    /// The circulating supply is zero, so no share is defined.
    ZeroSupply,
    /// Some holder's share does not fit in 64 bits.
    RewardOverflow,
}

/// The models of a snapshot's entries, in the snapshot's order.
pub open spec fn holder_views(holders: Seq<HolderBalance>) -> Seq<HolderView> {
    holders.map_values(|h: HolderBalance| h@)
}

/// The models of a list of payouts, in the list's order.
pub open spec fn payout_views(payouts: Seq<Payout>) -> Seq<PayoutView> {
    payouts.map_values(|p: Payout| p@)
}

/// The share of `total_rewards` owed to a holder of `balance` units out of
/// `total_supply`: the product divided by the supply, rounded down.
pub open spec fn share_of(balance: nat, total_rewards: nat, total_supply: nat) -> nat
    recommends
        total_supply > 0,
{
    (balance * total_rewards) / total_supply
}

/// What one holder is owed, addressed to the owning wallet.
pub open spec fn payout_of(holder: HolderView, total_rewards: nat, total_supply: nat) -> PayoutView {
    PayoutView {
        recipient: holder.owner,
        amount: share_of(holder.balance, total_rewards, total_supply),
    }
}

/// The plan for a snapshot: each holder's payout in snapshot order, without
/// those that round down to zero.
pub open spec fn planned_payouts(
    holders: Seq<HolderView>,
    total_rewards: nat,
    total_supply: nat,
) -> Seq<PayoutView> {
    holders.map_values(|h: HolderView| payout_of(h, total_rewards, total_supply)).filter(
        |p: PayoutView| p.amount > 0,
    )
}

/// Some holder's share is too large for a 64-bit amount.
pub open spec fn share_overflows(
    holders: Seq<HolderView>,
    total_rewards: nat,
    total_supply: nat,
) -> bool {
    exists|i: int|
        0 <= i < holders.len() && #[trigger] share_of(
            holders[i].balance,
            total_rewards,
            total_supply,
        ) > u64::MAX
}

/// The outcome of planning, as a function of the snapshot alone.
pub open spec fn plan_outcome(
    holders: Seq<HolderView>,
    total_rewards: nat,
    total_supply: nat,
) -> Result<Seq<PayoutView>, DistributionError> {
    if total_supply == 0 {
        Err(DistributionError::ZeroSupply)
    } else if share_overflows(holders, total_rewards, total_supply) {
        Err(DistributionError::RewardOverflow)
    } else {
        Ok(planned_payouts(holders, total_rewards, total_supply))
    }
}

/// Sum of the amounts of a list of payouts.
pub open spec fn total_amount(payouts: Seq<PayoutView>) -> nat
    decreases payouts.len(),
{
    if payouts.len() == 0 {
        0
    } else {
        total_amount(payouts.drop_last()) + payouts.last().amount
    }
}

/// Sum of the balances of a snapshot.
pub open spec fn total_balance(holders: Seq<HolderView>) -> nat
    decreases holders.len(),
{
    if holders.len() == 0 {
        0
    } else {
        total_balance(holders.drop_last()) + holders.last().balance
    }
}

/// An ordered list of payouts, fixed once computed.
#[derive(Debug)]
pub struct DistributionPlan {
    payouts: Vec<Payout>,
}

impl View for DistributionPlan {
    type V = Seq<PayoutView>;

    closed spec fn view(&self) -> Seq<PayoutView> {
        payout_views(self.payouts@)
    }
}

impl DistributionPlan {
    /// The plan that pays nobody.
    pub fn empty() -> (plan: DistributionPlan)
        ensures
            plan@ == Seq::<PayoutView>::empty(),
    {
        let plan = DistributionPlan { payouts: Vec::new() };
        assert(plan@ =~= Seq::<PayoutView>::empty());
        plan
    }

    /// Computes the plan for a snapshot of holders.
    ///
    /// Fails with `ZeroSupply` when `total_supply` is zero, and with
    /// `RewardOverflow` when some share exceeds `u64::MAX` (which needs a
    /// balance above the supply). Otherwise the plan is exactly
    /// [`planned_payouts`], and its total stays within `total_rewards`
    /// whenever the balances add up to no more than the supply.
    pub fn compute(holders: &Vec<HolderBalance>, total_rewards: u64, total_supply: u64) -> (res:
        Result<DistributionPlan, DistributionError>)
        ensures
            match res {
                Ok(plan) => plan_outcome(
                    holder_views(holders@),
                    total_rewards as nat,
                    total_supply as nat,
                ) == Ok::<Seq<PayoutView>, DistributionError>(plan@),
                Err(e) => plan_outcome(
                    holder_views(holders@),
                    total_rewards as nat,
                    total_supply as nat,
                ) == Err::<Seq<PayoutView>, DistributionError>(e),
            },
            res is Ok && total_balance(holder_views(holders@)) <= total_supply ==> total_amount(
                res->Ok_0@,
            ) <= total_rewards,
    {
        if total_supply == 0 {
            return Err(DistributionError::ZeroSupply);
        }
        let ghost views = holder_views(holders@);
        let ghost r = total_rewards as nat;
        let ghost s = total_supply as nat;
        let mut payouts: Vec<Payout> = Vec::new();
        let mut i: usize = 0;
        proof {
            lemma_planned_empty(r, s);
            assert(views.take(0) =~= Seq::<HolderView>::empty());
        }
        while i < holders.len()
            invariant
                i <= holders.len(),
                total_supply > 0,
                views == holder_views(holders@),
                r == total_rewards as nat,
                s == total_supply as nat,
                forall|j: int| 0 <= j < i ==> #[trigger] share_of(views[j].balance, r, s) <= u64::MAX,
                payout_views(payouts@) == planned_payouts(views.take(i as int), r, s),
            decreases holders.len() - i,
        {
            let holder = &holders[i];
            assert(holder.balance * total_rewards <= u128::MAX) by (nonlinear_arith)
                requires
                    holder.balance <= 0xffff_ffff_ffff_ffff,
                    total_rewards <= 0xffff_ffff_ffff_ffff,
                    u128::MAX == 0xffff_ffff_ffff_ffff_ffff_ffff_ffff_ffff,
            ;
            let product: u128 = (holder.balance as u128) * (total_rewards as u128);
            let share: u128 = product / (total_supply as u128);
            assert(share == share_of(views[i as int].balance, r, s));
            if share > u64::MAX as u128 {
                assert(share_overflows(views, r, s));
                return Err(DistributionError::RewardOverflow);
            }
            proof {
                lemma_planned_push(views.take(i as int), views[i as int], r, s);
                assert(views.take(i as int + 1) =~= views.take(i as int).push(views[i as int]));
            }
            if share > 0 {
                let payout = Payout { recipient: holder.owner.clone(), amount: share as u64 };
                assert(payout@ == payout_of(views[i as int], r, s));
                proof {
                    payouts@.lemma_push_map_commute(|p: Payout| p@, payout);
                }
                payouts.push(payout);
            }
            i += 1;
        }
        assert(views.take(i as int) =~= views);
        assert(!share_overflows(views, r, s));
        proof {
            if total_balance(views) <= s {
                lemma_total_within_rewards(views, r, s);
            }
        }
        Ok(DistributionPlan { payouts })
    }

    /// Number of payouts in the plan.
    pub fn len(&self) -> (n: usize)
        ensures
            n == self@.len(),
    {
        self.payouts.len()
    }

    /// Whether the plan pays nobody.
    pub fn is_empty(&self) -> (b: bool)
        ensures
            b == (self@.len() == 0),
    {
        self.payouts.len() == 0
    }

    /// The `index`-th payout, in snapshot order.
    pub fn get(&self, index: usize) -> (res: Option<&Payout>)
        ensures
            match res {
                Some(p) => index < self@.len() && p@ == self@[index as int],
                None => index >= self@.len(),
            },
    {
        if index < self.payouts.len() {
            Some(&self.payouts[index])
        } else {
            None
        }
    }

    /// Sum of all planned amounts.
    pub fn total(&self) -> (sum: u128)
        ensures
            sum == total_amount(self@),
    {
        let mut sum: u128 = 0;
        let mut i: usize = 0;
        let ghost all = payout_views(self.payouts@);
        assert(all.take(0) =~= Seq::<PayoutView>::empty());
        while i < self.payouts.len()
            invariant
                i <= self.payouts.len(),
                all == payout_views(self.payouts@),
                sum == total_amount(all.take(i as int)),
                sum <= i * u64::MAX,
            decreases self.payouts.len() - i,
        {
            proof {
                let next = all.take(i as int + 1);
                assert(next.drop_last() =~= all.take(i as int));
                assert(next.last() == all[i as int]);
                assert(i * u64::MAX + u64::MAX <= usize::MAX * u64::MAX) by (nonlinear_arith)
                    requires
                        i < usize::MAX,
                ;
                assert(usize::MAX * u64::MAX < u128::MAX) by (nonlinear_arith)
                    requires
                        usize::MAX <= u64::MAX,
                        u64::MAX == 0xffff_ffff_ffff_ffff,
                        u128::MAX == 0xffff_ffff_ffff_ffff_ffff_ffff_ffff_ffff,
                ;
            }
            sum = sum + self.payouts[i].amount as u128;
            i += 1;
        }
        assert(all.take(i as int) =~= all);
        sum
    }
}

/// An empty snapshot plans nothing.
pub proof fn lemma_planned_empty(total_rewards: nat, total_supply: nat)
    ensures
        planned_payouts(Seq::<HolderView>::empty(), total_rewards, total_supply)
            == Seq::<PayoutView>::empty(),
{
    reveal(Seq::filter);
    let mapped = Seq::<HolderView>::empty().map_values(
        |h: HolderView| payout_of(h, total_rewards, total_supply),
    );
    assert(mapped =~= Seq::<PayoutView>::empty());
}

/// Appending a holder appends that holder's payout if it is positive, and
/// leaves the plan as it was if not.
pub proof fn lemma_planned_push(
    holders: Seq<HolderView>,
    holder: HolderView,
    total_rewards: nat,
    total_supply: nat,
)
    ensures
        planned_payouts(holders.push(holder), total_rewards, total_supply) == if share_of(
            holder.balance,
            total_rewards,
            total_supply,
        ) > 0 {
            planned_payouts(holders, total_rewards, total_supply).push(
                payout_of(holder, total_rewards, total_supply),
            )
        } else {
            planned_payouts(holders, total_rewards, total_supply)
        },
{
    let f = |h: HolderView| payout_of(h, total_rewards, total_supply);
    let pred = |p: PayoutView| p.amount > 0;
    holders.lemma_push_map_commute(f, holder);
    holders.map_values(f).lemma_filter_push(f(holder), pred);
}

/// Planning a concatenation is planning each part and concatenating.
pub proof fn lemma_planned_concat(
    front: Seq<HolderView>,
    back: Seq<HolderView>,
    total_rewards: nat,
    total_supply: nat,
)
    ensures
        planned_payouts(front + back, total_rewards, total_supply) == planned_payouts(
            front,
            total_rewards,
            total_supply,
        ) + planned_payouts(back, total_rewards, total_supply),
{
    let f = |h: HolderView| payout_of(h, total_rewards, total_supply);
    let pred = |p: PayoutView| p.amount > 0;
    assert((front + back).map_values(f) =~= front.map_values(f) + back.map_values(f));
    Seq::filter_distributes_over_add(front.map_values(f), back.map_values(f), pred);
}

/// Multiplied by the supply, the planned total is at most the snapshot's
/// total balance times the reward pool.
proof fn lemma_total_scaled(holders: Seq<HolderView>, total_rewards: nat, total_supply: nat)
    requires
        total_supply > 0,
    ensures
        total_amount(planned_payouts(holders, total_rewards, total_supply)) * total_supply
            <= total_balance(holders) * total_rewards,
    decreases holders.len(),
{
    if holders.len() == 0 {
        assert(holders =~= Seq::<HolderView>::empty());
        lemma_planned_empty(total_rewards, total_supply);
        assert(total_amount(Seq::<PayoutView>::empty()) == 0);
        assert(0 * total_supply <= total_balance(holders) * total_rewards) by (nonlinear_arith);
    } else {
        let init = holders.drop_last();
        let last = holders.last();
        assert(holders =~= init.push(last));
        lemma_total_scaled(init, total_rewards, total_supply);
        lemma_planned_push(init, last, total_rewards, total_supply);
        let before = planned_payouts(init, total_rewards, total_supply);
        let share = share_of(last.balance, total_rewards, total_supply);
        let product: nat = last.balance * total_rewards;
        assert(share * total_supply <= product) by (nonlinear_arith)
            requires
                total_supply > 0,
                share == product / total_supply,
        ;
        if share > 0 {
            let after = before.push(payout_of(last, total_rewards, total_supply));
            assert(after.drop_last() =~= before);
            assert(total_amount(after) == total_amount(before) + share);
        }
        let grown = total_amount(planned_payouts(holders, total_rewards, total_supply));
        assert(grown == total_amount(before) + share);
        assert(grown * total_supply <= total_balance(holders) * total_rewards)
            by (nonlinear_arith)
            requires
                grown == total_amount(before) + share,
                total_balance(holders) == total_balance(init) + last.balance,
                total_amount(before) * total_supply <= total_balance(init) * total_rewards,
                share * total_supply <= last.balance * total_rewards,
        ;
    }
}

/// The planned amounts never add up to more than the reward pool, as long
/// as the snapshot's balances add up to no more than the supply.
pub proof fn lemma_total_within_rewards(
    holders: Seq<HolderView>,
    total_rewards: nat,
    total_supply: nat,
)
    requires
        total_supply > 0,
        total_balance(holders) <= total_supply,
    ensures
        total_amount(planned_payouts(holders, total_rewards, total_supply)) <= total_rewards,
{
    lemma_total_scaled(holders, total_rewards, total_supply);
    let total = total_amount(planned_payouts(holders, total_rewards, total_supply));
    let balance = total_balance(holders);
    assert(total <= total_rewards) by (nonlinear_arith)
        requires
            total_supply > 0,
            balance <= total_supply,
            total * total_supply <= balance * total_rewards,
    ;
}

/// Every planned amount is positive and is the share of a holder with a
/// positive balance.
pub proof fn lemma_planned_amounts_positive(
    holders: Seq<HolderView>,
    total_rewards: nat,
    total_supply: nat,
    k: int,
)
    requires
        total_supply > 0,
        0 <= k < planned_payouts(holders, total_rewards, total_supply).len(),
    ensures
        planned_payouts(holders, total_rewards, total_supply)[k].amount > 0,
        exists|i: int|
            0 <= i < holders.len() && holders[i].balance > 0 && #[trigger] payout_of(
                holders[i],
                total_rewards,
                total_supply,
            ) == planned_payouts(holders, total_rewards, total_supply)[k],
{
    let f = |h: HolderView| payout_of(h, total_rewards, total_supply);
    let pred = |p: PayoutView| p.amount > 0;
    let mapped = holders.map_values(f);
    let plan = mapped.filter(pred);
    mapped.lemma_filter_pred(pred, k);
    assert(plan.contains(plan[k]));
    mapped.lemma_filter_contains_rev(pred, plan[k]);
    let i = choose|i: int| 0 <= i < mapped.len() && mapped[i] == plan[k];
    assert(mapped[i] == payout_of(holders[i], total_rewards, total_supply));
    if holders[i].balance == 0 {
        assert(0nat * total_rewards == 0) by (nonlinear_arith);
        assert(0int / (total_supply as int) == 0) by (nonlinear_arith)
            requires
                total_supply > 0,
        ;
    }
}

/// A holder with no balance is owed nothing and changes nothing: the outcome
/// is the same as for the snapshot without that holder.
pub proof fn lemma_zero_balance_changes_nothing(
    holders: Seq<HolderView>,
    total_rewards: nat,
    total_supply: nat,
    i: int,
)
    requires
        0 <= i < holders.len(),
        holders[i].balance == 0,
    ensures
        total_supply > 0 ==> share_of(holders[i].balance, total_rewards, total_supply) == 0,
        plan_outcome(holders, total_rewards, total_supply) == plan_outcome(
            holders.remove(i),
            total_rewards,
            total_supply,
        ),
{
    if total_supply > 0 {
        assert(0nat * total_rewards == 0) by (nonlinear_arith);
        assert(0int / (total_supply as int) == 0) by (nonlinear_arith)
            requires
                total_supply > 0,
        ;
        let rest = holders.remove(i);
        let front = holders.take(i);
        let back = holders.skip(i + 1);
        assert(holders =~= front.push(holders[i]) + back);
        assert(rest =~= front + back);
        lemma_planned_push(front, holders[i], total_rewards, total_supply);
        lemma_planned_concat(front.push(holders[i]), back, total_rewards, total_supply);
        lemma_planned_concat(front, back, total_rewards, total_supply);
        if share_overflows(holders, total_rewards, total_supply) {
            let j = choose|j: int|
                0 <= j < holders.len() && #[trigger] share_of(
                    holders[j].balance,
                    total_rewards,
                    total_supply,
                ) > u64::MAX;
            let k = if j < i {
                j
            } else {
                j - 1
            };
            assert(rest[k] == holders[j]);
            assert(share_of(rest[k].balance, total_rewards, total_supply) > u64::MAX);
        }
        if share_overflows(rest, total_rewards, total_supply) {
            let k = choose|k: int|
                0 <= k < rest.len() && #[trigger] share_of(
                    rest[k].balance,
                    total_rewards,
                    total_supply,
                ) > u64::MAX;
            let j = if k < i {
                k
            } else {
                k + 1
            };
            assert(holders[j] == rest[k]);
            assert(share_of(holders[j].balance, total_rewards, total_supply) > u64::MAX);
        }
    }
}

/// Planning keeps no state: two plans computed from one snapshot are equal.
pub proof fn lemma_same_snapshot_same_plan(
    first: DistributionPlan,
    second: DistributionPlan,
    holders: Seq<HolderView>,
    total_rewards: nat,
    total_supply: nat,
)
    requires
        plan_outcome(holders, total_rewards, total_supply) == Ok::<
            Seq<PayoutView>,
            DistributionError,
        >(first@),
        plan_outcome(holders, total_rewards, total_supply) == Ok::<
            Seq<PayoutView>,
            DistributionError,
        >(second@),
    ensures
        first@ == second@,
{
}

} // verus!
