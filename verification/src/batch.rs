//! Splitting the holders' token accounts into the batches that one harvest
//! instruction can take.

use crate::address::Address;
use vstd::prelude::*;

verus! {

/// How many token accounts one harvest instruction is handed at most.
pub const HARVEST_BATCH_SIZE: usize = 20;

/// Number of batches of at most `size` that `total` accounts fill: the
/// quotient rounded up.
pub open spec fn batch_count(total: nat, size: nat) -> nat
    recommends
        size > 0,
{
    ((total + size - 1) / (size as int)) as nat
}

/// The `index`-th batch: the accounts from `index * size` on, up to `size` of
/// them.
pub open spec fn batch_at<T>(accounts: Seq<T>, size: nat, index: nat) -> Seq<T>
    recommends
        size > 0,
        index * size <= accounts.len(),
{
    let start = index * size;
    let end = if start + size <= accounts.len() {
        start + size
    } else {
        accounts.len()
    };
    accounts.subrange(start as int, end as int)
}

/// All batches of a list, in order.
pub open spec fn batches_of<T>(accounts: Seq<T>, size: nat) -> Seq<Seq<T>>
    recommends
        size > 0,
{
    Seq::new(batch_count(accounts.len(), size), |i: int| batch_at(accounts, size, i as nat))
}

/// The contents of a list of batches, in order.
pub open spec fn batch_views(batches: Seq<Vec<Address>>) -> Seq<Seq<Address>> {
    batches.map_values(|b: Vec<Address>| b@)
}

/// The accounts of a list of batches, one batch after the other.
pub open spec fn concatenated<T>(batches: Seq<Seq<T>>) -> Seq<T>
    decreases batches.len(),
{
    if batches.len() == 0 {
        Seq::empty()
    } else {
        concatenated(batches.drop_last()) + batches.last()
    }
}

/// Copies the accounts from `start` up to `end`.
fn copy_range(accounts: &Vec<Address>, start: usize, end: usize) -> (batch: Vec<Address>)
    requires
        start <= end <= accounts.len(),
    ensures
        batch@ == accounts@.subrange(start as int, end as int),
{
    let mut batch: Vec<Address> = Vec::new();
    let mut i: usize = start;
    while i < end
        invariant
            start <= i <= end <= accounts.len(),
            batch@ == accounts@.subrange(start as int, i as int),
        decreases end - i,
    {
        batch.push(accounts[i]);
        assert(accounts@.subrange(start as int, i as int + 1) =~= accounts@.subrange(
            start as int,
            i as int,
        ).push(accounts@[i as int]));
        i += 1;
    }
    batch
}

/// Splits the accounts into consecutive batches of `batch_size`, the last
/// one holding what is left over.
///
/// The batch size must not be zero.
pub fn harvest_batches(accounts: &Vec<Address>, batch_size: usize) -> (batches: Vec<Vec<Address>>)
    requires
        batch_size > 0,
    ensures
        batch_views(batches@) == batches_of(accounts@, batch_size as nat),
{
    let ghost size = batch_size as nat;
    let ghost total = accounts@.len();
    let mut batches: Vec<Vec<Address>> = Vec::new();
    let mut start: usize = 0;
    assert(0 * size == 0) by (nonlinear_arith);
    while start < accounts.len()
        invariant
            batch_size > 0,
            size == batch_size as nat,
            total == accounts@.len(),
            start <= accounts.len(),
            start == batches.len() * size || start == total,
            batches.len() * size >= start,
            batches.len() > 0 ==> (batches.len() - 1) * size < total,
            forall|i: int|
                0 <= i < batches.len() ==> (#[trigger] batches@[i])@ == batch_at(
                    accounts@,
                    size,
                    i as nat,
                ),
        decreases accounts.len() - start,
    {
        let left: usize = accounts.len() - start;
        let end: usize = if left > batch_size {
            start + batch_size
        } else {
            accounts.len()
        };
        let batch = copy_range(accounts, start, end);
        let ghost k = batches.len() as nat;
        assert(start == k * size);
        assert((k + 1) * size == k * size + size) by (nonlinear_arith);
        assert(batch@ == batch_at(accounts@, size, k));
        batches.push(batch);
        start = end;
    }
    proof {
        let k = batches.len() as nat;
        lemma_batch_count_is_least(total, size, k);
        assert(batch_views(batches@) =~= batches_of(accounts@, size));
    }
    batches
}

/// The number of batches is the least `count` whose batches hold all
/// `total` accounts.
pub proof fn lemma_batch_count_is_least(total: nat, size: nat, count: nat)
    requires
        size > 0,
        count * size >= total,
        count > 0 ==> (count - 1) * size < total,
    ensures
        count == batch_count(total, size),
{
    let q = (total + size - 1) / (size as int);
    assert(count == q) by (nonlinear_arith)
        requires
            size > 0,
            total >= 0,
            count >= 0,
            count * size >= total,
            count > 0 ==> (count - 1) * size < total,
            q == (total + size - 1) / (size as int),
    ;
}

/// `total` accounts in batches of `size` make as many batches as the
/// quotient rounded up: enough to hold them all, and not one more.
pub proof fn lemma_batch_count_rounds_up(total: nat, size: nat)
    requires
        size > 0,
    ensures
        batch_count(total, size) * size >= total,
        batch_count(total, size) > 0 ==> (batch_count(total, size) - 1) * size < total,
        total == 0 <==> batch_count(total, size) == 0,
        total % size == 0 ==> batch_count(total, size) == total / size,
        total % size != 0 ==> batch_count(total, size) == total / size + 1,
{
    let q = (total + size - 1) / (size as int);
    assert(q * size >= total && (q > 0 ==> (q - 1) * size < total) && q >= 0 && (total == 0 <==> q
        == 0)) by (nonlinear_arith)
        requires
            size > 0,
            total >= 0,
            q == (total + size - 1) / (size as int),
    ;
    let d = total / size;
    let r = total % size;
    assert(total == d * size + r && 0 <= r < size) by (nonlinear_arith)
        requires
            size > 0,
            total >= 0,
            d == total / size,
            r == total % size,
    ;
    if r == 0 {
        assert(q == d) by (nonlinear_arith)
            requires
                size > 0,
                total == d * size,
                q * size >= total,
                q > 0 ==> (q - 1) * size < total,
                q >= 0,
                d >= 0,
        ;
    } else {
        assert(q == d + 1) by (nonlinear_arith)
            requires
                size > 0,
                total == d * size + r,
                0 < r < size,
                q * size >= total,
                q > 0 ==> (q - 1) * size < total,
                q >= 0,
                d >= 0,
        ;
    }
}

/// No batch is empty, none holds more than `size` accounts, and every batch
/// but the last holds exactly `size`.
pub proof fn lemma_batch_sizes<T>(accounts: Seq<T>, size: nat, index: int)
    requires
        size > 0,
        0 <= index < batches_of(accounts, size).len(),
    ensures
        1 <= batches_of(accounts, size)[index].len() <= size,
        index + 1 < batches_of(accounts, size).len() ==> batches_of(accounts, size)[index].len()
            == size,
{
    let total = accounts.len();
    let count = batch_count(total, size);
    lemma_batch_count_rounds_up(total, size);
    assert(index * size < total && (index + 1 < count ==> (index + 1) * size < total))
        by (nonlinear_arith)
        requires
            size > 0,
            0 <= index < count,
            (count - 1) * size < total,
    ;
    assert((index + 1) * size == index * size + size) by (nonlinear_arith);
}

/// One batch after the other, the batches hold the accounts in the order
/// they came in, each once.
pub proof fn lemma_batches_cover<T>(accounts: Seq<T>, size: nat)
    requires
        size > 0,
    ensures
        concatenated(batches_of(accounts, size)) == accounts,
{
    let batches = batches_of(accounts, size);
    lemma_batch_count_rounds_up(accounts.len(), size);
    lemma_prefix_concatenated(accounts, size, batches.len() as int);
    assert(batches.take(batches.len() as int) =~= batches);
    assert(accounts.take(accounts.len() as int) =~= accounts);
}

/// The first `count` batches hold the accounts before the next batch's
/// start.
proof fn lemma_prefix_concatenated<T>(accounts: Seq<T>, size: nat, count: int)
    requires
        size > 0,
        0 <= count <= batches_of(accounts, size).len(),
    ensures
        concatenated(batches_of(accounts, size).take(count)) == accounts.take(
            if count * size <= accounts.len() {
                count * size
            } else {
                accounts.len() as int
            },
        ),
    decreases count,
{
    let batches = batches_of(accounts, size);
    let total = accounts.len();
    if count == 0 {
        assert(batches.take(0) =~= Seq::<Seq<T>>::empty());
        assert(0 * size == 0) by (nonlinear_arith);
        assert(accounts.take(0) =~= Seq::<T>::empty());
    } else {
        lemma_prefix_concatenated(accounts, size, count - 1);
        lemma_batch_count_rounds_up(total, size);
        let prefix = batches.take(count);
        assert(prefix.drop_last() =~= batches.take(count - 1));
        assert(prefix.last() == batch_at(accounts, size, (count - 1) as nat));
        let start = (count - 1) * size;
        assert(start < total) by (nonlinear_arith)
            requires
                size > 0,
                1 <= count <= batch_count(total, size),
                (batch_count(total, size) - 1) * size < total,
                start == (count - 1) * size,
        ;
        assert(count * size == start + size) by (nonlinear_arith)
            requires
                start == (count - 1) * size,
        ;
        let end = if start + size <= total {
            start + size
        } else {
            total as int
        };
        assert(accounts.take(start) + accounts.subrange(start, end) =~= accounts.take(end));
    }
}

/// Batching commutes with mapping: the batches of the mapped accounts are
/// the mapped batches.
pub proof fn lemma_batches_of_mapped<T, U>(accounts: Seq<T>, size: nat, f: spec_fn(T) -> U)
    requires
        size > 0,
    ensures
        batches_of(accounts.map_values(f), size) == batches_of(accounts, size).map_values(
            |batch: Seq<T>| batch.map_values(f),
        ),
{
    let mapped = batches_of(accounts.map_values(f), size);
    let batches = batches_of(accounts, size);
    let lifted = batches.map_values(|batch: Seq<T>| batch.map_values(f));
    assert(mapped.len() == lifted.len());
    assert forall|i: int| 0 <= i < mapped.len() implies mapped[i] == lifted[i] by {
        lemma_batch_sizes(accounts, size, i);
        lemma_batch_count_rounds_up(accounts.len(), size);
        let total = accounts.len();
        assert(i * size < total) by (nonlinear_arith)
            requires
                size > 0,
                0 <= i < batch_count(total, size),
                (batch_count(total, size) - 1) * size < total,
        ;
        assert(mapped[i] =~= lifted[i]);
    }
    assert(mapped =~= lifted);
}

} // verus!
