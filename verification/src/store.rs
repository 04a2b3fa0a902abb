//! The latest-value table and its change log.
//!
//! The table holds at most one record per `bank_class`. Writing a rate either
//! replaces the values of the record of its bank in one step or creates the
//! record; the log only grows. This is the behaviour that any store behind
//! the writer has to show, kept here in memory.

use vstd::prelude::*;
use vstd::string::*;
use crate::decimal::Decimal;
use crate::rate::{FetchedRate, RateView};

verus! {

/// The latest known rate of one bank, as stored.
pub struct BankRate {
    pub bank_name: String,
    pub bank_class: String,
    pub dollar_buy_rate: Decimal,
    pub dollar_sell_rate: Decimal,
    /// When the values were last written.
    pub updated_at: Option<i64>,
    /// When the record was created.
    pub created_at: Option<i64>,
}

/// A stored record, as text.
pub struct RecordView {
    pub bank_name: Seq<char>,
    pub bank_class: Seq<char>,
    pub buy: Seq<char>,
    pub sell: Seq<char>,
    pub updated_at: Option<i64>,
    pub created_at: Option<i64>,
}

impl View for BankRate {
    type V = RecordView;

    open spec fn view(&self) -> RecordView {
        RecordView {
            bank_name: self.bank_name@,
            bank_class: self.bank_class@,
            buy: self.dollar_buy_rate@,
            sell: self.dollar_sell_rate@,
            updated_at: self.updated_at,
            created_at: self.created_at,
        }
    }
}

/// One line of the change log: a rate and when it was observed.
pub struct RateHistoryEntry {
    pub bank_name: String,
    pub bank_class: String,
    pub dollar_buy_rate: Decimal,
    pub dollar_sell_rate: Decimal,
    pub observed_at: i64,
}

/// A line of the change log, as text.
pub struct HistoryView {
    pub rate: RateView,
    pub observed_at: i64,
}

impl View for RateHistoryEntry {
    type V = HistoryView;

    open spec fn view(&self) -> HistoryView {
        HistoryView {
            rate: RateView {
                bank_name: self.bank_name@,
                bank_class: self.bank_class@,
                buy: self.dollar_buy_rate@,
                sell: self.dollar_sell_rate@,
            },
            observed_at: self.observed_at,
        }
    }
}

/// The content of a store.
pub struct StoreView {
    pub records: Seq<RecordView>,
    pub history: Seq<HistoryView>,
}

/// Whether the table has a record for `bank_class`.
pub open spec fn has_record(records: Seq<RecordView>, bank_class: Seq<char>) -> bool {
    exists|i: int| 0 <= i < records.len() && (#[trigger] records[i]).bank_class == bank_class
}

/// The place of the record for `bank_class`, in a table that has one.
pub open spec fn place_of(records: Seq<RecordView>, bank_class: Seq<char>) -> int {
    choose|i: int| 0 <= i < records.len() && (#[trigger] records[i]).bank_class == bank_class
}

/// The record for `bank_class`, where the table has one.
pub open spec fn record_of(records: Seq<RecordView>, bank_class: Seq<char>) -> Option<RecordView> {
    if has_record(records, bank_class) {
        Some(records[place_of(records, bank_class)])
    } else {
        None
    }
}

/// A record after `rate` was written over it at `now`: name and values are
/// those of the rate, the time of the update is `now`, the rest stays.
pub open spec fn replaced(record: RecordView, rate: RateView, now: i64) -> RecordView {
    RecordView {
        bank_name: rate.bank_name,
        buy: rate.buy,
        sell: rate.sell,
        updated_at: Some(now),
        ..record
    }
}

/// The record that `rate` creates at `now`.
pub open spec fn created(rate: RateView, now: i64) -> RecordView {
    RecordView {
        bank_name: rate.bank_name,
        bank_class: rate.bank_class,
        buy: rate.buy,
        sell: rate.sell,
        updated_at: Some(now),
        created_at: Some(now),
    }
}

impl StoreView {
    /// No two records are of the same bank.
    pub open spec fn wf(self) -> bool {
        forall|i: int, j: int|
            0 <= i < j < self.records.len() ==> (#[trigger] self.records[i]).bank_class != (
            #[trigger] self.records[j]).bank_class
    }

    /// The store after `rate` was upserted at `now`. The log is not touched.
    pub open spec fn upserted(self, rate: RateView, now: i64) -> StoreView {
        if has_record(self.records, rate.bank_class) {
            let at = place_of(self.records, rate.bank_class);
            StoreView {
                records: self.records.update(at, replaced(self.records[at], rate, now)),
                history: self.history,
            }
        } else {
            StoreView {
                records: self.records.push(created(rate, now)),
                history: self.history,
            }
        }
    }

    /// The store after `rate`, observed at `now`, was added to the log.
    pub open spec fn logged(self, rate: RateView, now: i64) -> StoreView {
        StoreView {
            records: self.records,
            history: self.history.push(HistoryView { rate, observed_at: now }),
        }
    }
}

/// The latest-value table and the change log, in memory.
pub struct RateStore {
    records: Vec<BankRate>,
    history: Vec<RateHistoryEntry>,
}

impl View for RateStore {
    type V = StoreView;

    closed spec fn view(&self) -> StoreView {
        StoreView {
            records: Seq::new(self.records@.len(), |i: int| self.records@[i]@),
            history: Seq::new(self.history@.len(), |i: int| self.history@[i]@),
        }
    }
}

impl RateStore {
    /// An empty store.
    pub fn new() -> (store: RateStore)
        ensures
            store@.wf(),
            store@.records.len() == 0,
            store@.history.len() == 0,
    {
        RateStore { records: Vec::new(), history: Vec::new() }
    }

    fn find(&self, bank_class: &String) -> (place: Option<usize>)
        requires
            self@.wf(),
        ensures
            match place {
                Some(at) => at < self@.records.len() && self@.records[at as int].bank_class
                    == bank_class@ && has_record(self@.records, bank_class@) && place_of(
                    self@.records,
                    bank_class@,
                ) == at,
                None => !has_record(self@.records, bank_class@),
            },
    {
        let mut i: usize = 0;
        while i < self.records.len()
            invariant
                i <= self.records.len(),
                self@.wf(),
                self.records@.len() == self@.records.len(),
                forall|k: int|
                    0 <= k < i ==> (#[trigger] self@.records[k]).bank_class != bank_class@,
            decreases self.records.len() - i,
        {
            if self.records[i].bank_class == *bank_class {
                proof {
                    assert(self@.records[i as int].bank_class == bank_class@);
                    let chosen = place_of(self@.records, bank_class@);
                    assert(self@.records[chosen].bank_class == self@.records[i as int].bank_class);
                }
                return Some(i);
            }
            i = i + 1;
        }
        None
    }

    /// The record of the bank stored as `bank_class`, if it has one.
    pub fn get(&self, bank_class: &str) -> (record: Option<&BankRate>)
        requires
            self@.wf(),
        ensures
            (match record {
                Some(r) => Some(r@),
                None => None,
            }) == record_of(self@.records, bank_class@),
    {
        let wanted = bank_class.to_owned();
        match self.find(&wanted) {
            Some(at) => Some(&self.records[at]),
            None => None,
        }
    }

    /// The number of records in the table.
    pub fn len(&self) -> (n: usize)
        ensures
            n == self@.records.len(),
    {
        self.records.len()
    }

    /// The number of lines in the change log.
    pub fn history_len(&self) -> (n: usize)
        ensures
            n == self@.history.len(),
    {
        self.history.len()
    }

    /// Line `index` of the change log, oldest first.
    pub fn history_entry(&self, index: usize) -> (entry: Option<&RateHistoryEntry>)
        ensures
            match entry {
                Some(e) => index < self@.history.len() && e@ == self@.history[index as int],
                None => index >= self@.history.len(),
            },
    {
        if index < self.history.len() {
            Some(&self.history[index])
        } else {
            None
        }
    }

    /// Writes `rate` into the table at `now`: over the record of its bank
    /// where there is one, as a new record where there is none.
    pub fn upsert(&mut self, rate: &FetchedRate, now: i64)
        requires
            old(self)@.wf(),
        ensures
            final(self)@.wf(),
            final(self)@ == old(self)@.upserted(rate@, now),
    {
        proof {
            lemma_upsert_keeps_one_record_per_bank(self@, rate@, now);
        }
        match self.find(&rate.bank_class) {
            Some(at) => {
                let created_at = self.records[at].created_at;
                let record = BankRate {
                    bank_name: rate.bank_name.clone(),
                    bank_class: rate.bank_class.clone(),
                    dollar_buy_rate: rate.dollar_buy_rate.clone(),
                    dollar_sell_rate: rate.dollar_sell_rate.clone(),
                    updated_at: Some(now),
                    created_at,
                };
                assert(record@ == replaced(old(self)@.records[at as int], rate@, now));
                self.records.set(at, record);
                assert(self@.records =~= old(self)@.upserted(rate@, now).records);
                assert(self@.history =~= old(self)@.history);
            },
            None => {
                let record = BankRate {
                    bank_name: rate.bank_name.clone(),
                    bank_class: rate.bank_class.clone(),
                    dollar_buy_rate: rate.dollar_buy_rate.clone(),
                    dollar_sell_rate: rate.dollar_sell_rate.clone(),
                    updated_at: Some(now),
                    created_at: Some(now),
                };
                self.records.push(record);
                assert(self@.records =~= old(self)@.upserted(rate@, now).records);
                assert(self@.history =~= old(self)@.history);
            },
        }
    }

    /// Adds `rate`, observed at `now`, to the change log.
    pub fn append_history(&mut self, rate: &FetchedRate, now: i64)
        ensures
            final(self)@ == old(self)@.logged(rate@, now),
    {
        let entry = RateHistoryEntry {
            bank_name: rate.bank_name.clone(),
            bank_class: rate.bank_class.clone(),
            dollar_buy_rate: rate.dollar_buy_rate.clone(),
            dollar_sell_rate: rate.dollar_sell_rate.clone(),
            observed_at: now,
        };
        self.history.push(entry);
        assert(self@.records =~= old(self)@.records);
        assert(self@.history =~= old(self)@.logged(rate@, now).history);
    }
}

/// The store after one rate went through the writer: upserted, then logged.
pub open spec fn written(store: StoreView, rate: RateView, now: i64) -> StoreView {
    store.upserted(rate, now).logged(rate, now)
}

/// The store after a series of rates went through the writer, each with the
/// time of its write, in the order given.
pub open spec fn after_writes(store: StoreView, writes: Seq<(RateView, i64)>) -> StoreView
    decreases writes.len(),
{
    if writes.len() == 0 {
        store
    } else {
        written(after_writes(store, writes.drop_last()), writes.last().0, writes.last().1)
    }
}

/// Whether name, values and time of update of `record` are those of the one write `write`.
pub open spec fn carries(record: RecordView, write: (RateView, i64)) -> bool {
    &&& record.bank_class == write.0.bank_class
    &&& record.bank_name == write.0.bank_name
    &&& record.buy == write.0.buy
    &&& record.sell == write.0.sell
    &&& record.updated_at == Some(write.1)
}

/// An upsert keeps the table well formed, leaves one record for the bank of
/// the rate, and touches no record of another bank.
pub proof fn lemma_upsert_keeps_one_record_per_bank(store: StoreView, rate: RateView, now: i64)
    requires
        store.wf(),
    ensures
        store.upserted(rate, now).wf(),
        has_record(store.upserted(rate, now).records, rate.bank_class),
        has_record(store.records, rate.bank_class) ==> store.upserted(rate, now).records.len()
            == store.records.len(),
        !has_record(store.records, rate.bank_class) ==> store.upserted(rate, now).records.len()
            == store.records.len() + 1,
        forall|i: int|
            0 <= i < store.records.len() && (#[trigger] store.records[i]).bank_class
                != rate.bank_class ==> store.upserted(rate, now).records[i] == store.records[i],
        forall|i: int|
            0 <= i < store.upserted(rate, now).records.len() ==> (
            #[trigger] store.upserted(rate, now).records[i]).bank_class == rate.bank_class
                || (i < store.records.len() && store.upserted(rate, now).records[i]
                == store.records[i]),
{
    let after = store.upserted(rate, now).records;
    if has_record(store.records, rate.bank_class) {
        let at = place_of(store.records, rate.bank_class);
        assert(after[at].bank_class == rate.bank_class);
        assert forall|i: int, j: int| 0 <= i < j < after.len() implies (
        #[trigger] after[i]).bank_class != (#[trigger] after[j]).bank_class by {
            assert(after[i].bank_class == store.records[i].bank_class);
            assert(after[j].bank_class == store.records[j].bank_class);
        }
    } else {
        assert(after[store.records.len() as int].bank_class == rate.bank_class);
        assert forall|i: int, j: int| 0 <= i < j < after.len() implies (
        #[trigger] after[i]).bank_class != (#[trigger] after[j]).bank_class by {
            if j < store.records.len() {
                assert(after[i] == store.records[i]);
                assert(after[j] == store.records[j]);
            } else {
                assert(after[i] == store.records[i]);
            }
        }
    }
}

/// Round trip: a rate that was upserted reads back under its `bank_class`
/// with the very name, buy value and sell value that were written, and with
/// the time of the write as the time of its update.
pub proof fn lemma_a_written_rate_reads_back(store: StoreView, rate: RateView, now: i64)
    requires
        store.wf(),
    ensures
        record_of(store.upserted(rate, now).records, rate.bank_class) matches Some(record)
            && carries(record, (rate, now)),
        !has_record(store.records, rate.bank_class) ==> record_of(
            store.upserted(rate, now).records,
            rate.bank_class,
        ) == Some(created(rate, now)),
        has_record(store.records, rate.bank_class) ==> record_of(
            store.upserted(rate, now).records,
            rate.bank_class,
        ) == Some(replaced(store.records[place_of(store.records, rate.bank_class)], rate, now)),
{
    lemma_upsert_keeps_one_record_per_bank(store, rate, now);
    let after = store.upserted(rate, now);
    let at = place_of(after.records, rate.bank_class);
    if has_record(store.records, rate.bank_class) {
        let old_at = place_of(store.records, rate.bank_class);
        assert(after.records[old_at].bank_class == after.records[at].bank_class);
    } else {
        assert(after.records[store.records.len() as int].bank_class
            == after.records[at].bank_class);
    }
}

/// Idempotence: upserting the same rate a second time leaves the table with
/// the same records, of which the one of the rate's bank differs from what
/// the first upsert left in the time of its update alone.
pub proof fn lemma_upsert_is_idempotent(store: StoreView, rate: RateView, first: i64, second: i64)
    requires
        store.wf(),
    ensures
        ({
            let once = store.upserted(rate, first);
            let twice = once.upserted(rate, second);
            let at = place_of(once.records, rate.bank_class);
            &&& twice.wf()
            &&& twice.records.len() == once.records.len()
            &&& twice.records == once.records.update(
                at,
                RecordView { updated_at: Some(second), ..once.records[at] },
            )
            &&& record_of(twice.records, rate.bank_class) == Some(
                RecordView { updated_at: Some(second), ..once.records[at] },
            )
        }),
{
    let once = store.upserted(rate, first);
    lemma_upsert_keeps_one_record_per_bank(store, rate, first);
    lemma_a_written_rate_reads_back(store, rate, first);
    lemma_upsert_keeps_one_record_per_bank(once, rate, second);
    lemma_a_written_rate_reads_back(once, rate, second);
    let at = place_of(once.records, rate.bank_class);
    assert(replaced(once.records[at], rate, second) == (RecordView {
        updated_at: Some(second),
        ..once.records[at]
    }));
}

/// No mixed record: after any series of writes, in whatever order the rates
/// of different cycles arrive, every record either is a record that was there
/// before, untouched, or carries name, buy value, sell value and time of
/// update of one single write for its bank.
pub proof fn lemma_a_record_carries_one_write(store: StoreView, writes: Seq<(RateView, i64)>)
    requires
        store.wf(),
    ensures
        after_writes(store, writes).wf(),
        after_writes(store, writes).records.len() >= store.records.len(),
        forall|i: int|
            0 <= i < after_writes(store, writes).records.len() ==> {
                let record = #[trigger] after_writes(store, writes).records[i];
                ||| (i < store.records.len() && record == store.records[i])
                ||| exists|k: int| 0 <= k < writes.len() && carries(record, #[trigger] writes[k])
            },
    decreases writes.len(),
{
    if writes.len() > 0 {
        let earlier = writes.drop_last();
        let before = after_writes(store, earlier);
        let (rate, now) = writes.last();
        lemma_a_record_carries_one_write(store, earlier);
        let after = after_writes(store, writes);
        lemma_upsert_keeps_one_record_per_bank(before, rate, now);
        lemma_a_written_rate_reads_back(before, rate, now);
        assert forall|i: int| 0 <= i < after.records.len() implies {
            let record = #[trigger] after.records[i];
            ||| (i < store.records.len() && record == store.records[i])
            ||| exists|k: int| 0 <= k < writes.len() && carries(record, #[trigger] writes[k])
        } by {
            let record = after.records[i];
            if record.bank_class == rate.bank_class {
                let at = place_of(after.records, rate.bank_class);
                assert(after.records[at].bank_class == after.records[i].bank_class);
                assert(carries(record, writes[writes.len() - 1]));
            } else {
                assert(record == before.records[i]);
                if !(i < store.records.len() && record == store.records[i]) {
                    let k = choose|k: int|
                        0 <= k < earlier.len() && carries(record, #[trigger] earlier[k]);
                    assert(earlier[k] == writes[k]);
                }
            }
        }
    }
}


/// The lines that a series of writes adds to the change log.
pub open spec fn log_lines(writes: Seq<(RateView, i64)>) -> Seq<HistoryView> {
    writes.map_values(|write: (RateView, i64)| HistoryView { rate: write.0, observed_at: write.1 })
}

/// The change log only grows: a series of writes leaves every line that was
/// there in its place and adds one line per write, in the order of the
/// writes, each with the rate and the time of its write.
pub proof fn lemma_the_log_only_grows(store: StoreView, writes: Seq<(RateView, i64)>)
    ensures
        after_writes(store, writes).history == store.history + log_lines(writes),
    decreases writes.len(),
{
    if writes.len() > 0 {
        let earlier = writes.drop_last();
        lemma_the_log_only_grows(store, earlier);
        assert(log_lines(writes) =~= log_lines(earlier).push(
            HistoryView { rate: writes.last().0, observed_at: writes.last().1 },
        ));
    }
    assert(after_writes(store, writes).history =~= store.history + log_lines(writes));
}

} // verus!
