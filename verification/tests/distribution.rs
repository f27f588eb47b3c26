use tax_rewards::distribution::{DistributionError, DistributionPlan, HolderBalance};

fn holder(account: &str, owner: &str, balance: u64) -> HolderBalance {
    HolderBalance { account: account.to_string(), owner: owner.to_string(), balance }
}

fn amounts(plan: &DistributionPlan) -> Vec<(String, u64)> {
    let mut out = Vec::new();
    let mut i = 0;
    while let Some(p) = plan.get(i) {
        out.push((p.recipient.clone(), p.amount));
        i += 1;
    }
    out
}

#[test]
fn exact_split_has_no_dust() {
    let holders = vec![holder("a", "A", 500), holder("b", "B", 300), holder("c", "C", 200)];
    let plan = DistributionPlan::compute(&holders, 100, 1000).unwrap();
    assert_eq!(
        amounts(&plan),
        vec![("A".to_string(), 50), ("B".to_string(), 30), ("C".to_string(), 20)]
    );
    assert_eq!(plan.total(), 100);
}

#[test]
fn truncation_leaves_dust() {
    let holders = vec![holder("a", "A", 1), holder("b", "B", 1), holder("c", "C", 1)];
    let plan = DistributionPlan::compute(&holders, 10, 3).unwrap();
    assert_eq!(
        amounts(&plan),
        vec![("A".to_string(), 3), ("B".to_string(), 3), ("C".to_string(), 3)]
    );
    assert_eq!(plan.total(), 9);
    assert_eq!(10 - plan.total(), 1);
}

#[test]
fn zero_supply_is_an_error() {
    let holders = vec![holder("a", "A", 1)];
    assert_eq!(
        DistributionPlan::compute(&holders, 10, 0).unwrap_err(),
        DistributionError::ZeroSupply
    );
}

#[test]
fn an_empty_snapshot_plans_nothing() {
    let plan = DistributionPlan::compute(&Vec::new(), 100, 1000).unwrap();
    assert!(plan.is_empty());
    assert_eq!(plan.len(), 0);
    assert_eq!(plan.total(), 0);
    assert!(plan.get(0).is_none());
    assert!(DistributionPlan::empty().is_empty());
}

#[test]
fn a_holder_without_balance_gets_no_payout() {
    let holders = vec![holder("a", "A", 0), holder("b", "B", 10), holder("c", "C", 0)];
    let plan = DistributionPlan::compute(&holders, 100, 10).unwrap();
    assert_eq!(amounts(&plan), vec![("B".to_string(), 100)]);
    let without = vec![holder("b", "B", 10)];
    assert_eq!(amounts(&DistributionPlan::compute(&without, 100, 10).unwrap()), amounts(&plan));
}

#[test]
fn a_share_that_rounds_to_zero_is_left_out() {
    let holders = vec![holder("a", "A", 1), holder("b", "B", 999)];
    let plan = DistributionPlan::compute(&holders, 100, 1000).unwrap();
    assert_eq!(amounts(&plan), vec![("B".to_string(), 99)]);
    assert_eq!(plan.total(), 99);
}

#[test]
fn the_same_snapshot_gives_the_same_plan() {
    let holders = vec![holder("a", "A", 17), holder("b", "B", 4), holder("c", "C", 79)];
    let first = DistributionPlan::compute(&holders, 12345, 100).unwrap();
    let second = DistributionPlan::compute(&holders, 12345, 100).unwrap();
    assert_eq!(amounts(&first), amounts(&second));
    assert_eq!(
        amounts(&first),
        vec![("A".to_string(), 2098), ("B".to_string(), 493), ("C".to_string(), 9752)]
    );
}

#[test]
fn the_total_never_exceeds_the_rewards() {
    for rewards in [0u64, 1, 7, 10, 99, 1000, u64::MAX] {
        for supply in [3u64, 10, 1000, u64::MAX] {
            let holders = vec![holder("a", "A", 1), holder("b", "B", 1), holder("c", "C", 1)];
            let plan = DistributionPlan::compute(&holders, rewards, supply).unwrap();
            assert!(plan.total() <= rewards as u128);
        }
    }
}

#[test]
fn the_widest_product_still_fits() {
    let holders = vec![holder("a", "A", u64::MAX)];
    let plan = DistributionPlan::compute(&holders, u64::MAX, u64::MAX).unwrap();
    assert_eq!(amounts(&plan), vec![("A".to_string(), u64::MAX)]);
}

#[test]
fn a_share_beyond_64_bits_is_an_error() {
    let holders = vec![holder("a", "A", 1), holder("b", "B", 4)];
    assert_eq!(
        DistributionPlan::compute(&holders, u64::MAX, 2).unwrap_err(),
        DistributionError::RewardOverflow
    );
    assert_eq!(
        DistributionPlan::compute(&holders, u64::MAX, 0).unwrap_err(),
        DistributionError::ZeroSupply
    );
}

#[test]
fn balances_above_the_supply_can_exceed_the_rewards() {
    let holders = vec![holder("a", "A", 2)];
    let plan = DistributionPlan::compute(&holders, 10, 1).unwrap();
    assert_eq!(plan.total(), 20);
}
