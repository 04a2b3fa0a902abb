//! The writer: which write comes next for the rates of a cycle.
//!
//! Each rate is upserted; the line for the change log follows only an upsert
//! that succeeded, and whether that line could be written is of no
//! consequence. A failed upsert costs the rate its write and nothing else:
//! the writer goes on to the next rate.

use vstd::prelude::*;
use crate::cycle::{rate_views, resolved_rates, Cycle};
use crate::rate::{FetchedRate, RateView};
use crate::store::{after_writes, written, RateStore};

verus! {

/// How a write ended.
#[derive(Clone, Copy, PartialEq, Eq, Structural, Debug)]
pub enum WriteReport {
    Succeeded,
    Failed,
}

/// What the writer asks its caller to do.
pub enum WriteAction {
    /// Upsert this rate into the latest-value table.
    Upsert(FetchedRate),
    /// Add this rate to the change log.
    AppendHistory(FetchedRate),
    /// Nothing more; `stored` rates were upserted.
    Finish { stored: usize },
}

/// A write action, as text.
pub enum WriteActionView {
    Upsert(RateView),
    AppendHistory(RateView),
    Finish { stored: usize },
}

impl View for WriteAction {
    type V = WriteActionView;

    open spec fn view(&self) -> WriteActionView {
        match self {
            WriteAction::Upsert(rate) => WriteActionView::Upsert(rate@),
            WriteAction::AppendHistory(rate) => WriteActionView::AppendHistory(rate@),
            WriteAction::Finish { stored } => WriteActionView::Finish { stored: *stored },
        }
    }
}

/// The state of a writer: the rates of the cycle, the place of the rate that
/// is being written, whether its upsert is done and its log line is due, and
/// the number of upserts that succeeded.
pub struct WriterView {
    pub rates: Seq<RateView>,
    pub position: nat,
    pub logging: bool,
    pub stored: nat,
}

impl WriterView {
    /// The states a writer can be in.
    pub open spec fn wf(self) -> bool {
        &&& self.position <= self.rates.len()
        &&& self.stored <= self.position + if self.logging {
            1nat
        } else {
            0nat
        }
    }

    /// The writes that are still to be reported before the writer has finished, at most.
    pub open spec fn writes_left(self) -> nat {
        if self.position >= self.rates.len() {
            0
        } else if self.logging {
            (2 * (self.rates.len() - self.position) - 1) as nat
        } else {
            (2 * (self.rates.len() - self.position)) as nat
        }
    }
}

/// What a writer in state `w` asks for.
pub open spec fn write_action(w: WriterView) -> WriteActionView {
    if w.position >= w.rates.len() {
        WriteActionView::Finish { stored: w.stored as usize }
    } else if w.logging {
        WriteActionView::AppendHistory(w.rates[w.position as int])
    } else {
        WriteActionView::Upsert(w.rates[w.position as int])
    }
}

/// The state that follows `w` when the write that was asked for is reported.
pub open spec fn next_write(w: WriterView, report: WriteReport) -> WriterView {
    if w.position >= w.rates.len() {
        w
    } else if w.logging {
        WriterView { position: w.position + 1, logging: false, ..w }
    } else {
        match report {
            WriteReport::Succeeded => WriterView { logging: true, stored: w.stored + 1, ..w },
            WriteReport::Failed => WriterView { position: w.position + 1, ..w },
        }
    }
}

/// The writer of one cycle.
pub struct Writer {
    rates: Vec<FetchedRate>,
    position: usize,
    logging: bool,
    stored: usize,
}

impl View for Writer {
    type V = WriterView;

    closed spec fn view(&self) -> WriterView {
        WriterView {
            rates: rate_views(self.rates@),
            position: self.position as nat,
            logging: self.logging,
            stored: self.stored as nat,
        }
    }
}

impl Writer {
    #[verifier::type_invariant]
    spec fn well_formed(&self) -> bool {
        self@.wf()
    }

    /// A writer for the rates of a cycle, before anything was written.
    pub fn new(rates: Vec<FetchedRate>) -> (writer: Writer)
        ensures
            writer@ == (WriterView {
                rates: rate_views(rates@),
                position: 0,
                logging: false,
                stored: 0,
            }),
            writer@.wf(),
    {
        Writer { rates, position: 0, logging: false, stored: 0 }
    }

    /// What the caller is to write now.
    pub fn action(&self) -> (action: WriteAction)
        ensures
            action@ == write_action(self@),
            self@.wf(),
    {
        proof {
            use_type_invariant(self);
        }
        if self.position >= self.rates.len() {
            WriteAction::Finish { stored: self.stored }
        } else if self.logging {
            WriteAction::AppendHistory(self.rates[self.position].clone())
        } else {
            WriteAction::Upsert(self.rates[self.position].clone())
        }
    }

    /// Takes in how the write that was asked for ended.
    pub fn report(&mut self, report: WriteReport)
        ensures
            final(self)@ == next_write(old(self)@, report),
            final(self)@.wf(),
    {
        proof {
            use_type_invariant(&*self);
        }
        if self.position >= self.rates.len() {
            return ;
        }
        if self.logging {
            self.position = self.position + 1;
            self.logging = false;
        } else {
            match report {
                WriteReport::Succeeded => {
                    self.logging = true;
                    self.stored = self.stored + 1;
                },
                WriteReport::Failed => {
                    self.position = self.position + 1;
                },
            }
        }
    }
}

/// The rates of a list, each with the same time of writing.
pub open spec fn stamped(rates: Seq<RateView>, now: i64) -> Seq<(RateView, i64)> {
    rates.map_values(|rate: RateView| (rate, now))
}

/// Every report brings the writer strictly closer to its end, so it finishes
/// after at most two reports per rate; and it asks for nothing more exactly
/// when no write is left.
pub proof fn lemma_every_report_advances(w: WriterView, report: WriteReport)
    requires
        w.wf(),
    ensures
        next_write(w, report).wf(),
        next_write(w, report).rates == w.rates,
        w.writes_left() == 0 <==> write_action(w) is Finish,
        w.writes_left() > 0 ==> next_write(w, report).writes_left() < w.writes_left(),
{
}

/// No rate is skipped: a report moves the writer to the next rate or keeps it
/// at the one it is writing, never further, and a rate that is reached is
/// upserted first. A failed upsert moves on by exactly one rate.
pub proof fn lemma_no_rate_is_skipped(w: WriterView, report: WriteReport)
    requires
        w.wf(),
    ensures
        next_write(w, report).position == w.position || next_write(w, report).position
            == w.position + 1,
        next_write(w, report).position == w.position + 1 ==> !next_write(w, report).logging,
        !w.logging && w.position < w.rates.len() ==> write_action(w) == WriteActionView::Upsert(
            w.rates[w.position as int],
        ),
        !w.logging && w.position < w.rates.len() && report == WriteReport::Failed ==> next_write(
            w,
            report,
        ) == (WriterView { position: w.position + 1, ..w }),
{
}

/// A line for the change log is asked for exactly after an upsert that
/// succeeded, and for the rate of that upsert; how the writing of the line
/// ends makes no difference to what follows.
pub proof fn lemma_the_log_follows_a_successful_upsert(w: WriterView, report: WriteReport)
    requires
        w.wf(),
    ensures
        write_action(next_write(w, report)) is AppendHistory <==> (write_action(w) is Upsert
            && report == WriteReport::Succeeded),
        write_action(w) matches WriteActionView::Upsert(rate) ==> (report == WriteReport::Succeeded
            ==> write_action(next_write(w, report)) == WriteActionView::AppendHistory(rate)),
        write_action(w) is AppendHistory ==> next_write(w, WriteReport::Succeeded) == next_write(
            w,
            WriteReport::Failed,
        ),
{
}

/// Writes the rates of a cycle into the store in memory, all at the time
/// `now`: runs a writer to its end and does each write it asks for. In
/// memory no write fails.
pub fn write_all(store: &mut RateStore, rates: Vec<FetchedRate>, now: i64)
    requires
        old(store)@.wf(),
    ensures
        final(store)@.wf(),
        final(store)@ == after_writes(old(store)@, stamped(rate_views(rates@), now)),
{
    let ghost all = rate_views(rates@);
    let ghost writes = stamped(all, now);
    let ghost initial = store@;
    let mut writer = Writer::new(rates);
    assert(writes.take(0) =~= Seq::empty());
    loop
        invariant
            writer@.wf(),
            writer@.rates == all,
            writes == stamped(all, now),
            store@.wf(),
            !writer@.logging ==> store@ == after_writes(
                initial,
                writes.take(writer@.position as int),
            ),
            writer@.logging ==> writer@.position < all.len() && store@ == after_writes(
                initial,
                writes.take(writer@.position as int),
            ).upserted(all[writer@.position as int], now),
        ensures
            store@.wf(),
            store@ == after_writes(initial, writes),
        decreases writer@.writes_left(),
    {
        let ghost position = writer@.position as int;
        let ghost before = after_writes(initial, writes.take(position));
        proof {
            lemma_every_report_advances(writer@, WriteReport::Succeeded);
            lemma_every_report_advances(writer@, WriteReport::Failed);
            if position < all.len() {
                let upto = writes.take(position + 1);
                assert(upto.drop_last() =~= writes.take(position));
                assert(upto.last() == (all[position], now));
                assert(after_writes(initial, upto) == written(before, all[position], now));
            }
        }
        match writer.action() {
            WriteAction::Upsert(rate) => {
                store.upsert(&rate, now);
                writer.report(WriteReport::Succeeded);
            },
            WriteAction::AppendHistory(rate) => {
                store.append_history(&rate, now);
                writer.report(WriteReport::Succeeded);
            },
            WriteAction::Finish { stored: _ } => {
                assert(writes.take(position) =~= writes);
                break ;
            },
        }
    }
}

/// Writes one rate into the store in memory at the time `now`: upserts it,
/// then adds it to the change log.
pub fn upsert_rate(store: &mut RateStore, rate: &FetchedRate, now: i64)
    requires
        old(store)@.wf(),
    ensures
        final(store)@.wf(),
        final(store)@ == written(old(store)@, rate@, now),
{
    store.upsert(rate, now);
    store.append_history(rate, now);
}

/// The second half of a cycle, against the store in memory: writes every
/// rate that the sources of `cycle` have yielded, in the order of the
/// sources, at the time `now`.
pub fn update_all_rates(store: &mut RateStore, cycle: &Cycle, now: i64)
    requires
        old(store)@.wf(),
    ensures
        final(store)@.wf(),
        final(store)@ == after_writes(old(store)@, stamped(resolved_rates(cycle@), now)),
{
    write_all(store, cycle.rates(), now)
}

} // verus!
