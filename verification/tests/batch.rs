use tax_rewards::address::Address;
use tax_rewards::batch::{harvest_batches, HARVEST_BATCH_SIZE};

fn accounts(count: usize) -> Vec<Address> {
    (0..count)
        .map(|i| {
            let mut bytes = [0u8; 32];
            bytes[0] = (i % 256) as u8;
            bytes[1] = (i / 256) as u8;
            Address::new(bytes)
        })
        .collect()
}

#[test]
fn the_batch_size_is_twenty() {
    assert_eq!(HARVEST_BATCH_SIZE, 20);
}

#[test]
fn batches_are_as_many_as_the_quotient_rounded_up() {
    for (total, size, expected) in
        [(0usize, 20usize, 0usize), (1, 20, 1), (19, 20, 1), (20, 20, 1), (21, 20, 2), (45, 20, 3), (7, 1, 7), (7, 7, 1), (7, 100, 1), (1000, 20, 50)]
    {
        let batches = harvest_batches(&accounts(total), size);
        assert_eq!(batches.len(), expected);
        assert_eq!(batches.len(), (total + size - 1) / size);
    }
}

#[test]
fn no_batch_is_larger_than_the_size_and_only_the_last_is_smaller() {
    let all = accounts(45);
    let batches = harvest_batches(&all, 20);
    assert_eq!(batches.iter().map(|b| b.len()).collect::<Vec<_>>(), vec![20, 20, 5]);
    let joined: Vec<Address> = batches.into_iter().flatten().collect();
    assert_eq!(joined, all);
}

#[test]
fn batches_agree_with_chunks() {
    for total in 0..70usize {
        for size in 1..9usize {
            let all = accounts(total);
            let expected: Vec<Vec<Address>> = all.chunks(size).map(|c| c.to_vec()).collect();
            assert_eq!(harvest_batches(&all, size), expected);
        }
    }
}
