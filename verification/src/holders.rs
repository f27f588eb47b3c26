//! The snapshot of holders, gathered page by page from the indexer.
//!
//! A snapshot lists every token account once. A record for an account that
//! is already listed replaces the earlier one, where it stands. A page that
//! brings fewer records than were asked for is the last one.

use crate::distribution::holder_views;
use crate::distribution::HolderBalance;
use crate::distribution::HolderView;
use vstd::prelude::*;

verus! {

/// No two entries speak of the same token account.
pub open spec fn distinct_accounts(entries: Seq<HolderView>) -> bool {
    forall|i: int, j: int|
        0 <= i < entries.len() && 0 <= j < entries.len() && i != j ==> (#[trigger] entries[i]).account
            != (#[trigger] entries[j]).account
}

/// Whether some entry speaks of `account`.
pub open spec fn lists_account(entries: Seq<HolderView>, account: Seq<char>) -> bool {
    exists|i: int| 0 <= i < entries.len() && (#[trigger] entries[i]).account == account
}

/// The place of the entry that speaks of `account`, where there is one.
pub open spec fn place_of(entries: Seq<HolderView>, account: Seq<char>) -> int {
    choose|i: int| 0 <= i < entries.len() && (#[trigger] entries[i]).account == account
}

/// The entries after one record came in: it replaces the entry of its
/// account, or is added at the end.
pub open spec fn with_record(entries: Seq<HolderView>, record: HolderView) -> Seq<HolderView> {
    if lists_account(entries, record.account) {
        entries.update(place_of(entries, record.account), record)
    } else {
        entries.push(record)
    }
}

/// The entries after a run of records came in, one after the other.
pub open spec fn with_records(entries: Seq<HolderView>, records: Seq<HolderView>) -> Seq<HolderView>
    decreases records.len(),
{
    if records.len() == 0 {
        entries
    } else {
        with_record(with_records(entries, records.drop_last()), records.last())
    }
}

/// The holders gathered so far, each token account once.
#[derive(Debug)]
pub struct HolderSnapshot {
    entries: Vec<HolderBalance>,
}

impl View for HolderSnapshot {
    type V = Seq<HolderView>;

    closed spec fn view(&self) -> Seq<HolderView> {
        holder_views(self.entries@)
    }
}

impl HolderSnapshot {
    /// What every snapshot keeps: no token account is listed twice.
    #[verifier::type_invariant]
    spec fn no_account_twice(&self) -> bool {
        distinct_accounts(holder_views(self.entries@))
    }

    /// The empty snapshot.
    pub fn new() -> (snapshot: HolderSnapshot)
        ensures
            snapshot@ == Seq::<HolderView>::empty(),
    {
        let entries: Vec<HolderBalance> = Vec::new();
        assert(holder_views(entries@) =~= Seq::<HolderView>::empty());
        HolderSnapshot { entries }
    }

    /// Number of token accounts listed.
    pub fn len(&self) -> (n: usize)
        ensures
            n == self@.len(),
    {
        self.entries.len()
    }

    /// The listed holders, in the order in which their accounts first came,
    /// each token account once.
    pub fn holders(&self) -> (holders: &Vec<HolderBalance>)
        ensures
            holder_views(holders@) == self@,
            distinct_accounts(self@),
    {
        proof {
            use_type_invariant(self);
        }
        &self.entries
    }

    /// Gives up the snapshot for the list of its holders.
    pub fn into_holders(self) -> (holders: Vec<HolderBalance>)
        ensures
            holder_views(holders@) == self@,
            distinct_accounts(self@),
    {
        proof {
            use_type_invariant(&self);
        }
        self.entries
    }

    /// Takes one record in.
    pub fn insert(&mut self, record: HolderBalance)
        ensures
            final(self)@ == with_record(old(self)@, record@),
    {
        proof {
            use_type_invariant(&*self);
        }
        let ghost before = self@;
        let ghost incoming = record@;
        let mut entries: Vec<HolderBalance> = Vec::new();
        assert(holder_views(entries@) =~= Seq::<HolderView>::empty());
        std::mem::swap(&mut self.entries, &mut entries);
        let mut i: usize = 0;
        while i < entries.len()
            invariant
                i <= entries.len(),
                holder_views(entries@) == before,
                before == old(self)@,
                incoming == record@,
                distinct_accounts(before),
                forall|j: int| 0 <= j < i ==> (#[trigger] before[j]).account != incoming.account,
            decreases entries.len() - i,
        {
            if entries[i].account == record.account {
                proof {
                    assert(before[i as int].account == incoming.account);
                    assert(lists_account(before, incoming.account));
                    assert(place_of(before, incoming.account) == i);
                    lemma_update_keeps_distinct(before, i as int, incoming);
                    assert(holder_views(entries@.update(i as int, record)) =~= before.update(
                        i as int,
                        incoming,
                    ));
                }
                entries.set(i, record);
                assert(holder_views(entries@) == before.update(i as int, incoming));
                assert(with_record(before, incoming) == before.update(i as int, incoming));
                self.entries = entries;
                return ;
            }
            i += 1;
        }
        proof {
            assert(!lists_account(before, incoming.account));
            entries@.lemma_push_map_commute(|h: HolderBalance| h@, record);
            lemma_push_keeps_distinct(before, incoming);
        }
        entries.push(record);
        self.entries = entries;
    }

    /// Takes a page of records in, in the page's order.
    pub fn extend(&mut self, records: &Vec<HolderBalance>)
        ensures
            final(self)@ == with_records(old(self)@, holder_views(records@)),
    {
        let ghost before = self@;
        let ghost incoming = holder_views(records@);
        let mut i: usize = 0;
        assert(incoming.take(0) =~= Seq::<HolderView>::empty());
        while i < records.len()
            invariant
                i <= records.len(),
                incoming == holder_views(records@),
                self@ == with_records(before, incoming.take(i as int)),
            decreases records.len() - i,
        {
            let record = HolderBalance {
                account: records[i].account.clone(),
                owner: records[i].owner.clone(),
                balance: records[i].balance,
            };
            proof {
                let grown = incoming.take(i as int + 1);
                assert(grown.drop_last() =~= incoming.take(i as int));
                assert(grown.last() == incoming[i as int]);
                assert(record@ == incoming[i as int]);
            }
            self.insert(record);
            i += 1;
        }
        assert(incoming.take(i as int) =~= incoming);
    }
}

/// Replacing an entry by one for the same account keeps the accounts
/// distinct.
proof fn lemma_update_keeps_distinct(entries: Seq<HolderView>, place: int, record: HolderView)
    requires
        distinct_accounts(entries),
        0 <= place < entries.len(),
        entries[place].account == record.account,
    ensures
        distinct_accounts(entries.update(place, record)),
{
    let after = entries.update(place, record);
    assert forall|i: int, j: int|
        0 <= i < after.len() && 0 <= j < after.len() && i != j implies (#[trigger] after[i]).account
        != (#[trigger] after[j]).account by {
        assert(after[i].account == entries[i].account);
        assert(after[j].account == entries[j].account);
    }
}

/// Adding an entry for an account that is not listed keeps the accounts
/// distinct.
proof fn lemma_push_keeps_distinct(entries: Seq<HolderView>, record: HolderView)
    requires
        distinct_accounts(entries),
        !lists_account(entries, record.account),
    ensures
        distinct_accounts(entries.push(record)),
{
    let after = entries.push(record);
    assert forall|i: int, j: int|
        0 <= i < after.len() && 0 <= j < after.len() && i != j implies (#[trigger] after[i]).account
        != (#[trigger] after[j]).account by {
        if i < entries.len() {
            assert(after[i] == entries[i]);
        }
        if j < entries.len() {
            assert(after[j] == entries[j]);
        }
    }
}

/// The entry that speaks of `account`, where one does.
pub open spec fn entry_of(entries: Seq<HolderView>, account: Seq<char>) -> Option<HolderView> {
    if lists_account(entries, account) {
        Some(entries[place_of(entries, account)])
    } else {
        None
    }
}

/// Taking a record in is an insertion under the record's account: that
/// account then has the record, every other account has what it had, and
/// no account is listed twice.
pub proof fn lemma_record_is_inserted(
    entries: Seq<HolderView>,
    record: HolderView,
    account: Seq<char>,
)
    requires
        distinct_accounts(entries),
    ensures
        distinct_accounts(with_record(entries, record)),
        entry_of(with_record(entries, record), record.account) == Some(record),
        account != record.account ==> entry_of(with_record(entries, record), account) == entry_of(
            entries,
            account,
        ),
        with_record(entries, record).len() == if lists_account(entries, record.account) {
            entries.len()
        } else {
            entries.len() + 1
        },
{
    let after = with_record(entries, record);
    if lists_account(entries, record.account) {
        let place = place_of(entries, record.account);
        lemma_update_keeps_distinct(entries, place, record);
        assert(after[place] == record);
        assert(lists_account(after, record.account));
        assert(place_of(after, record.account) == place);
        if account != record.account {
            if lists_account(entries, account) {
                let at = place_of(entries, account);
                assert(after[at] == entries[at]);
                assert(lists_account(after, account));
                assert(place_of(after, account) == at);
            } else {
                if lists_account(after, account) {
                    let at = place_of(after, account);
                    assert(after[at].account == entries[at].account || at == place);
                    assert(entries[at].account == account);
                }
            }
        }
    } else {
        lemma_push_keeps_distinct(entries, record);
        let last = entries.len() as int;
        assert(after[last] == record);
        assert(lists_account(after, record.account));
        assert(place_of(after, record.account) == last);
        if account != record.account {
            if lists_account(entries, account) {
                let at = place_of(entries, account);
                assert(after[at] == entries[at]);
                assert(lists_account(after, account));
                assert(place_of(after, account) == at);
            } else {
                if lists_account(after, account) {
                    let at = place_of(after, account);
                    assert(at < last);
                    assert(entries[at].account == account);
                }
            }
        }
    }
}

/// One page to ask the indexer for.
#[derive(Clone, Copy, Debug, PartialEq, Eq, Structural)]
pub struct PageRequest {
    /// Number of the page, counted as the indexer counts.
    pub page: u32,
    /// Most records the page may bring.
    pub limit: u32,
}

/// Why gathering the holders stopped short.
#[derive(Clone, Copy, Debug, PartialEq, Eq, Structural)]
pub enum FetchError {
    /// Every page so far was full and the page number cannot grow further.
    PageNumberExhausted,
    /// A page came in after the last one.
    AlreadyComplete,
}

/// Gathering a snapshot page by page.
#[derive(Debug)]
pub struct HolderFetch {
    page: u32,
    limit: u32,
    complete: bool,
    snapshot: HolderSnapshot,
}

impl HolderFetch {
    /// The page that is asked for next.
    pub closed spec fn page(&self) -> u32 {
        self.page
    }

    /// The most records a page may bring.
    pub closed spec fn limit(&self) -> u32 {
        self.limit
    }

    /// Whether the last page has come in.
    pub closed spec fn complete(&self) -> bool {
        self.complete
    }

    /// The holders gathered so far.
    pub closed spec fn gathered(&self) -> Seq<HolderView> {
        self.snapshot@
    }

    /// Starts with nothing gathered, at page `page`.
    pub fn start(page: u32, limit: u32) -> (fetch: HolderFetch)
        ensures
            fetch.page() == page,
            fetch.limit() == limit,
            !fetch.complete(),
            fetch.gathered() == Seq::<HolderView>::empty(),
    {
        HolderFetch { page, limit, complete: false, snapshot: HolderSnapshot::new() }
    }

    /// The page to ask for now; none once the last page has come in.
    pub fn pending(&self) -> (request: Option<PageRequest>)
        ensures
            request == if self.complete() {
                None
            } else {
                Some(PageRequest { page: self.page(), limit: self.limit() })
            },
    {
        if self.complete {
            None
        } else {
            Some(PageRequest { page: self.page, limit: self.limit })
        }
    }

    /// Takes in the records of the page that was asked for.
    ///
    /// The records join the snapshot. A page with fewer records than the
    /// limit completes the fetch; after a full page the next one is asked
    /// for. Nothing changes where the fetch was complete already, or where a
    /// full page came in under the highest page number.
    pub fn receive(&mut self, records: &Vec<HolderBalance>) -> (res: Result<bool, FetchError>)
        ensures
            final(self).limit() == old(self).limit(),
            match res {
                Ok(done) => {
                    &&& !old(self).complete()
                    &&& done == (records@.len() < old(self).limit())
                    &&& final(self).complete() == done
                    &&& final(self).gathered() == with_records(
                        old(self).gathered(),
                        holder_views(records@),
                    )
                    &&& final(self).page() == if done {
                        old(self).page()
                    } else {
                        (old(self).page() + 1) as u32
                    }
                    &&& (!done ==> old(self).page() < u32::MAX)
                },
                Err(FetchError::AlreadyComplete) => old(self).complete() && *final(self) == *old(
                    self,
                ),
                Err(FetchError::PageNumberExhausted) => {
                    &&& !old(self).complete()
                    &&& records@.len() >= old(self).limit()
                    &&& old(self).page() == u32::MAX
                    &&& *final(self) == *old(self)
                },
            },
    {
        if self.complete {
            return Err(FetchError::AlreadyComplete);
        }
        let done: bool = records.len() < self.limit as usize;
        if !done && self.page == u32::MAX {
            return Err(FetchError::PageNumberExhausted);
        }
        self.snapshot.extend(records);
        if done {
            self.complete = true;
        } else {
            self.page = self.page + 1;
        }
        Ok(done)
    }

    /// The holders gathered so far, each token account once.
    pub fn snapshot(&self) -> (snapshot: &HolderSnapshot)
        ensures
            snapshot@ == self.gathered(),
    {
        &self.snapshot
    }

    /// Gives up the fetch for the holders it gathered.
    pub fn into_holders(self) -> (holders: Vec<HolderBalance>)
        ensures
            holder_views(holders@) == self.gathered(),
    {
        self.snapshot.into_holders()
    }
}

} // verus!
