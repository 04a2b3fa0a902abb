//! One cycle: the strategies of all sources, side by side.
//!
//! The sources share nothing. What is reported for one source changes the
//! state of that source and of no other, so a source that fails, or never
//! answers, costs the cycle exactly its own rate.

use vstd::prelude::*;
use crate::rate::{FetchedRate, RateView};
use crate::reply::{Event, EventView};
use crate::source::SourceConfig;
use crate::strategy::{action_of, first_stage, next, Action, Fetch, FetchView, StageView};

verus! {

/// The rates of a list, as text.
pub open spec fn rate_views(rates: Seq<FetchedRate>) -> Seq<RateView> {
    rates.map_values(|r: FetchedRate| r@)
}

/// The rates that the sources of a cycle have yielded so far, in the order
/// of the sources.
pub open spec fn resolved_rates(states: Seq<FetchView>) -> Seq<RateView>
    decreases states.len(),
{
    if states.len() == 0 {
        Seq::empty()
    } else {
        let before = resolved_rates(states.drop_last());
        match states.last().stage {
            StageView::Resolved(rate) => before.push(rate),
            _ => before,
        }
    }
}

/// Whether every source of a cycle has finished.
pub open spec fn all_finished(states: Seq<FetchView>) -> bool {
    forall|i: int|
        0 <= i < states.len() ==> (#[trigger] states[i]).stage is Resolved || states[i].stage
            is Failed
}

/// The state of every source as it is before anything was sent.
pub open spec fn initial_states(configs: Seq<SourceConfig>) -> Seq<FetchView> {
    Seq::new(
        configs.len(),
        |i: int| FetchView { stage: first_stage(configs[i]), failures: Seq::empty() },
    )
}

/// The states of a cycle after `event` was reported for `source`: the state
/// of that source has moved on, every other state is what it was. A report
/// for a source that the cycle does not have changes nothing.
pub open spec fn after_report(
    configs: Seq<SourceConfig>,
    states: Seq<FetchView>,
    source: int,
    event: EventView,
) -> Seq<FetchView> {
    if 0 <= source < states.len() {
        states.update(source, next(configs[source], states[source], event))
    } else {
        states
    }
}

/// The strategies of one cycle.
pub struct Cycle {
    fetches: Vec<Fetch>,
}

impl View for Cycle {
    type V = Seq<FetchView>;

    closed spec fn view(&self) -> Seq<FetchView> {
        Seq::new(self.fetches@.len(), |i: int| self.fetches@[i]@)
    }
}

impl Cycle {
    /// The sources of the cycle, in order.
    pub closed spec fn configs(&self) -> Seq<SourceConfig> {
        Seq::new(self.fetches@.len(), |i: int| self.fetches@[i].config())
    }

    /// A cycle over the given sources, before anything has been sent.
    pub fn begin(configs: Vec<SourceConfig>) -> (cycle: Cycle)
        ensures
            cycle.configs() == configs@,
            cycle@ == initial_states(configs@),
    {
        let ghost all = configs@;
        let mut configs = configs;
        let mut fetches: Vec<Fetch> = Vec::new();
        while configs.len() > 0
            invariant
                fetches@.len() + configs@.len() == all.len(),
                configs@ == all.skip(fetches@.len() as int),
                forall|k: int|
                    0 <= k < fetches@.len() ==> (#[trigger] fetches@[k]).config() == all[k]
                        && fetches@[k]@ == (FetchView {
                        stage: first_stage(all[k]),
                        failures: Seq::empty(),
                    }),
            decreases configs.len(),
        {
            let config = configs.remove(0);
            assert(configs@ =~= all.skip(fetches@.len() as int + 1));
            fetches.push(Fetch::start(config));
        }
        let cycle = Cycle { fetches };
        assert(cycle.configs() =~= all);
        assert(cycle@ =~= initial_states(all));
        cycle
    }

    /// A cycle over the three built-in sources: Banreservas, BHD, and Banco
    /// Popular with the proxy given.
    pub fn standard(proxy: Option<String>) -> (cycle: Cycle)
        ensures
            cycle.configs().len() == 3,
            cycle.configs()[0].is_banreservas(),
            cycle.configs()[1].is_bhd(),
            cycle.configs()[2].is_popular(
                match proxy {
                    Some(url) => Some(url@),
                    None => None,
                },
            ),
            cycle@ == initial_states(cycle.configs()),
    {
        let mut configs: Vec<SourceConfig> = Vec::new();
        configs.push(SourceConfig::banreservas());
        configs.push(SourceConfig::bhd());
        configs.push(SourceConfig::popular(proxy));
        Cycle::begin(configs)
    }

    /// The number of sources.
    pub fn len(&self) -> (n: usize)
        ensures
            n == self@.len(),
            n == self.configs().len(),
    {
        self.fetches.len()
    }

    /// What the caller is to do now for `source`; `None` for a source that
    /// the cycle does not have.
    pub fn action(&self, source: usize) -> (action: Option<Action>)
        ensures
            source >= self@.len() ==> action is None,
            source < self@.len() ==> (action matches Some(a) && a@ == action_of(
                self.configs()[source as int],
                self@[source as int],
            )),
    {
        if source < self.fetches.len() {
            Some(self.fetches[source].action())
        } else {
            None
        }
    }

    /// Takes in what happened to the last action of `source`.
    pub fn report(&mut self, source: usize, event: Event)
        ensures
            final(self).configs() == old(self).configs(),
            final(self)@ == after_report(old(self).configs(), old(self)@, source as int, event@),
    {
        if source < self.fetches.len() {
            let ghost before = self.fetches@;
            self.fetches[source].step(event);
            assert(self.fetches@.len() == before.len());
            assert(forall|i: int|
                0 <= i < before.len() && i != source ==> self.fetches@[i] == before[i]);
            assert(self.configs() =~= old(self).configs());
            assert(self@ =~= after_report(
                old(self).configs(),
                old(self)@,
                source as int,
                event@,
            ));
        }
    }

    /// Whether every source has finished.
    pub fn is_finished(&self) -> (done: bool)
        ensures
            done == all_finished(self@),
    {
        let mut i: usize = 0;
        while i < self.fetches.len()
            invariant
                i <= self.fetches.len(),
                forall|k: int|
                    0 <= k < i ==> (#[trigger] self@[k]).stage is Resolved || self@[k].stage
                        is Failed,
            decreases self.fetches.len() - i,
        {
            if !self.fetches[i].is_finished() {
                assert(!(self@[i as int].stage is Resolved || self@[i as int].stage is Failed));
                return false;
            }
            i = i + 1;
        }
        true
    }

    /// The rates that the sources have yielded so far, in the order of the sources.
    pub fn rates(&self) -> (rates: Vec<FetchedRate>)
        ensures
            rate_views(rates@) == resolved_rates(self@),
    {
        let mut rates: Vec<FetchedRate> = Vec::new();
        let mut i: usize = 0;
        assert(self@.take(0) =~= Seq::empty());
        assert(rate_views(rates@) =~= Seq::empty());
        while i < self.fetches.len()
            invariant
                i <= self.fetches.len(),
                self.fetches@.len() == self@.len(),
                rate_views(rates@) == resolved_rates(self@.take(i as int)),
            decreases self.fetches.len() - i,
        {
            let ghost upto = self@.take(i as int + 1);
            assert(upto.drop_last() =~= self@.take(i as int));
            assert(upto.last() == self@[i as int]);
            match self.fetches[i].rate() {
                Some(rate) => {
                    let ghost before = rates@;
                    rates.push(rate);
                    assert(rate_views(rates@) =~= rate_views(before).push(rate@));
                },
                None => {},
            }
            i = i + 1;
        }
        assert(self@.take(i as int) =~= self@);
        rates
    }
}

/// The rates of a cycle are exactly the rates of its resolved sources.
pub proof fn lemma_rates_are_those_of_the_resolved_sources(states: Seq<FetchView>, rate: RateView)
    ensures
        resolved_rates(states).contains(rate) <==> exists|i: int|
            0 <= i < states.len() && (#[trigger] states[i]).stage == StageView::Resolved(rate),
    decreases states.len(),
{
    if states.len() > 0 {
        let front = states.drop_last();
        let before = resolved_rates(front);
        lemma_rates_are_those_of_the_resolved_sources(front, rate);
        if resolved_rates(states).contains(rate) {
            let at = choose|k: int|
                0 <= k < resolved_rates(states).len() && resolved_rates(states)[k] == rate;
            if at < before.len() {
                assert(before[at] == rate);
                let i = choose|i: int|
                    0 <= i < front.len() && (#[trigger] front[i]).stage == StageView::Resolved(
                        rate,
                    );
                assert(states[i] == front[i]);
            } else {
                assert(states[states.len() - 1].stage == StageView::Resolved(rate));
            }
        }
        if exists|i: int|
            0 <= i < states.len() && (#[trigger] states[i]).stage == StageView::Resolved(rate) {
            let i = choose|i: int|
                0 <= i < states.len() && (#[trigger] states[i]).stage == StageView::Resolved(rate);
            if i < front.len() {
                assert(front[i] == states[i]);
                let at = choose|k: int| 0 <= k < before.len() && before[k] == rate;
                assert(resolved_rates(states)[at] == rate);
            } else {
                assert(resolved_rates(states) == before.push(rate));
                assert(resolved_rates(states)[before.len() as int] == rate);
            }
        }
    }
}

/// Isolation: whatever is reported for one source, be it a failure or
/// anything else, the state of every other source stays what it was, and a
/// rate that another source has yielded stays among the rates of the cycle.
pub proof fn lemma_a_source_affects_no_other(
    configs: Seq<SourceConfig>,
    states: Seq<FetchView>,
    source: int,
    event: EventView,
    other: int,
)
    requires
        0 <= other < states.len(),
        other != source,
    ensures
        after_report(configs, states, source, event).len() == states.len(),
        after_report(configs, states, source, event)[other] == states[other],
        states[other].stage matches StageView::Resolved(rate) ==> resolved_rates(
            after_report(configs, states, source, event),
        ).contains(rate),
{
    let after = after_report(configs, states, source, event);
    if let StageView::Resolved(rate) = states[other].stage {
        assert(after[other].stage == StageView::Resolved(rate));
        lemma_rates_are_those_of_the_resolved_sources(after, rate);
    }
}

/// The sources do not see each other: reports for two different sources lead
/// to the same states whichever of them is taken in first, so the rates of a
/// cycle do not depend on which source answers sooner.
pub proof fn lemma_reports_for_different_sources_commute(
    configs: Seq<SourceConfig>,
    states: Seq<FetchView>,
    first: int,
    first_event: EventView,
    second: int,
    second_event: EventView,
)
    requires
        first != second,
    ensures
        after_report(
            configs,
            after_report(configs, states, first, first_event),
            second,
            second_event,
        ) == after_report(
            configs,
            after_report(configs, states, second, second_event),
            first,
            first_event,
        ),
{
    let one_way = after_report(
        configs,
        after_report(configs, states, first, first_event),
        second,
        second_event,
    );
    let other_way = after_report(
        configs,
        after_report(configs, states, second, second_event),
        first,
        first_event,
    );
    assert(one_way =~= other_way);
}

} // verus!
