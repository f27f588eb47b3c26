use tax_rewards::distribution::HolderBalance;
use tax_rewards::holders::{FetchError, HolderFetch, HolderSnapshot, PageRequest};

fn record(account: &str, owner: &str, balance: u64) -> HolderBalance {
    HolderBalance { account: account.to_string(), owner: owner.to_string(), balance }
}

fn listed(holders: &Vec<HolderBalance>) -> Vec<(String, String, u64)> {
    holders.iter().map(|h| (h.account.clone(), h.owner.clone(), h.balance)).collect()
}

#[test]
fn a_record_for_a_listed_account_replaces_it_in_place() {
    let mut snapshot = HolderSnapshot::new();
    snapshot.insert(record("a", "x", 1));
    snapshot.insert(record("b", "y", 2));
    snapshot.insert(record("a", "z", 3));
    assert_eq!(snapshot.len(), 2);
    assert_eq!(
        listed(snapshot.holders()),
        vec![("a".to_string(), "z".to_string(), 3), ("b".to_string(), "y".to_string(), 2)]
    );
}

#[test]
fn a_page_is_taken_in_in_its_order() {
    let mut snapshot = HolderSnapshot::new();
    snapshot.extend(&vec![record("a", "x", 1), record("b", "y", 2), record("a", "x", 5)]);
    snapshot.extend(&vec![record("c", "w", 0)]);
    assert_eq!(
        listed(&snapshot.into_holders()),
        vec![
            ("a".to_string(), "x".to_string(), 5),
            ("b".to_string(), "y".to_string(), 2),
            ("c".to_string(), "w".to_string(), 0)
        ]
    );
}

#[test]
fn a_short_page_is_the_last() {
    let mut fetch = HolderFetch::start(1, 2);
    assert_eq!(fetch.pending(), Some(PageRequest { page: 1, limit: 2 }));
    assert_eq!(fetch.receive(&vec![record("a", "x", 1), record("b", "y", 2)]), Ok(false));
    assert_eq!(fetch.pending(), Some(PageRequest { page: 2, limit: 2 }));
    assert_eq!(fetch.receive(&vec![record("c", "z", 3)]), Ok(true));
    assert_eq!(fetch.pending(), None);
    assert_eq!(fetch.snapshot().len(), 3);
    assert_eq!(fetch.receive(&vec![]), Err(FetchError::AlreadyComplete));
    assert_eq!(fetch.into_holders().len(), 3);
}

#[test]
fn an_empty_page_is_the_last() {
    let mut fetch = HolderFetch::start(1, 1000);
    assert_eq!(fetch.receive(&Vec::new()), Ok(true));
    assert_eq!(fetch.pending(), None);
}

#[test]
fn a_limit_of_zero_never_sees_a_short_page() {
    let mut fetch = HolderFetch::start(7, 0);
    assert_eq!(fetch.receive(&Vec::new()), Ok(false));
    assert_eq!(fetch.pending(), Some(PageRequest { page: 8, limit: 0 }));
}

#[test]
fn the_page_number_does_not_wrap() {
    let mut fetch = HolderFetch::start(u32::MAX, 1);
    assert_eq!(fetch.receive(&vec![record("a", "x", 1)]), Err(FetchError::PageNumberExhausted));
    assert_eq!(fetch.pending(), Some(PageRequest { page: u32::MAX, limit: 1 }));
    assert_eq!(fetch.snapshot().len(), 0);
    assert_eq!(fetch.receive(&Vec::new()), Ok(true));
}
