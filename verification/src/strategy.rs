//! The strategy of one source: which request or pause comes next, and what
//! the source has yielded once nothing comes next.
//!
//! A strategy is an ordered chain of attempts. The proxy, where one is
//! configured, is tried first. Then comes the source itself: by one plain
//! request, or, for a protected source, by a browser session that visits the
//! landing page, fetches the challenge resource the page links to, pauses,
//! visits the page again, pauses, and only then asks for the data. The first
//! attempt that yields a rate ends the chain; an attempt that fails is noted
//! and the next one starts; when none is left the source has failed for this
//! cycle. Nothing is ever tried twice.

use vstd::prelude::*;
use vstd::string::*;
use crate::capture::found_texts;
use crate::extract::{
    captured, extract, extract_values, find, group_at, group_text, pattern_views,
    ExtractionFailure,
};
use crate::rate::{FetchedRate, RateView};
use crate::reply::{quote_values, select_quote, Body, BodyView, Event, EventView};
use crate::request::{
    browser_header_list, browser_header_list_with, browser_headers, browser_headers_with,
    data_header_list, data_headers, PayloadFormat, Request, RequestView,
};
use crate::source::{Evasion, Extractor, SourceConfig};

verus! {

/// Why an attempt gave no rate.
#[derive(Clone, Copy, PartialEq, Eq, Structural, Debug)]
pub enum FetchFailure {
    /// The request got no answer, or its body could not be read.
    Transport,
    /// The answer came with a status outside 200 to 299.
    ResponseStatus(u16),
    /// The payload arrived but gave no rate.
    Extraction(ExtractionFailure),
}

/// Where a strategy stands.
pub enum Stage {
    /// The request to the proxy is out.
    Proxy,
    /// The one request of a simple source is out.
    Direct,
    /// The first visit of the landing page is out.
    Landing,
    /// The request for the challenge resource at `link` is out.
    Challenge { link: String },
    /// Pausing before the second visit.
    FirstPause,
    /// The second visit of the landing page is out.
    Revisit,
    /// Pausing before the data call.
    SecondPause,
    /// The data call of the session is out.
    Data,
    /// The source yielded this rate.
    Resolved(FetchedRate),
    /// Every attempt failed.
    Failed,
}

/// A stage, as text.
pub enum StageView {
    Proxy,
    Direct,
    Landing,
    Challenge { link: Seq<char> },
    FirstPause,
    Revisit,
    SecondPause,
    Data,
    Resolved(RateView),
    Failed,
}

impl View for Stage {
    type V = StageView;

    open spec fn view(&self) -> StageView {
        match self {
            Stage::Proxy => StageView::Proxy,
            Stage::Direct => StageView::Direct,
            Stage::Landing => StageView::Landing,
            Stage::Challenge { link } => StageView::Challenge { link: link@ },
            Stage::FirstPause => StageView::FirstPause,
            Stage::Revisit => StageView::Revisit,
            Stage::SecondPause => StageView::SecondPause,
            Stage::Data => StageView::Data,
            Stage::Resolved(rate) => StageView::Resolved(rate@),
            Stage::Failed => StageView::Failed,
        }
    }
}

/// The state of a strategy: its stage, and the failures of the attempts that
/// are over, oldest first.
pub struct FetchView {
    pub stage: StageView,
    pub failures: Seq<FetchFailure>,
}

/// What a strategy asks its caller to do.
pub enum Action {
    /// Send this request and report the reply, or that there was none.
    Send(Request),
    /// Let this much time pass and report that it is over.
    Pause { millis: u64 },
    /// Nothing more: the source yielded a rate, or the failures of all its attempts.
    Finish(Result<FetchedRate, Vec<FetchFailure>>),
}

/// An action, as text.
pub enum ActionView {
    Send(RequestView),
    Pause { millis: u64 },
    Finish(Result<RateView, Seq<FetchFailure>>),
}

impl View for Action {
    type V = ActionView;

    open spec fn view(&self) -> ActionView {
        match self {
            Action::Send(request) => ActionView::Send(request@),
            Action::Pause { millis } => ActionView::Pause { millis: *millis },
            Action::Finish(Ok(rate)) => ActionView::Finish(Ok(rate@)),
            Action::Finish(Err(failures)) => ActionView::Finish(Err(failures@)),
        }
    }
}

/// A status that counts as success.
pub open spec fn is_success(status: u16) -> bool {
    200 <= status < 300
}

/// The rate with the names of `config` and the given pair of values.
pub open spec fn rate_of(config: SourceConfig, values: (Seq<char>, Seq<char>)) -> RateView {
    RateView {
        bank_name: config.bank_name@,
        bank_class: config.bank_class@,
        buy: values.0,
        sell: values.1,
    }
}

/// What the extractor of `config` makes of a body. A body in the format the
/// extractor does not read counts as lacking the expected entry.
pub open spec fn body_rate(config: SourceConfig, body: BodyView) -> Result<RateView, FetchFailure> {
    match body {
        BodyView::Unreadable => Err(FetchFailure::Transport),
        BodyView::Malformed => Err(FetchFailure::Extraction(ExtractionFailure::Shape)),
        BodyView::Text(text) => match config.extractor {
            Extractor::Patterns(patterns) => match extract_values(
                pattern_views(patterns@),
                text,
            ) {
                Ok(values) => Ok(rate_of(config, values)),
                Err(failure) => Err(FetchFailure::Extraction(failure)),
            },
            Extractor::Currency(_) => Err(FetchFailure::Extraction(ExtractionFailure::Shape)),
        },
        BodyView::Quotes(quotes) => match config.extractor {
            Extractor::Currency(code) => match quote_values(quotes, code@) {
                Ok(values) => Ok(rate_of(config, values)),
                Err(failure) => Err(FetchFailure::Extraction(failure)),
            },
            Extractor::Patterns(_) => Err(FetchFailure::Extraction(ExtractionFailure::Shape)),
        },
    }
}

/// What a data call yields: the status decides first, then the body.
pub open spec fn reply_rate(config: SourceConfig, status: u16, body: BodyView) -> Result<
    RateView,
    FetchFailure,
> {
    if is_success(status) {
        body_rate(config, body)
    } else {
        Err(FetchFailure::ResponseStatus(status))
    }
}

/// The text of a page; a page that could not be read is an empty page.
pub open spec fn page_text(body: BodyView) -> Seq<char> {
    match body {
        BodyView::Text(text) => text,
        _ => ""@,
    }
}

/// The address of the challenge resource that a landing page links to, if it
/// links to one.
pub open spec fn challenge_link(evasion: Evasion, page: Seq<char>) -> Option<Seq<char>> {
    match group_text(captured(evasion.challenge_expression@, page), 1) {
        Some(path) => Some(evasion.origin@ + path),
        None => None,
    }
}

/// The stage in which a strategy starts.
pub open spec fn first_stage(config: SourceConfig) -> StageView {
    if config.proxy is Some {
        StageView::Proxy
    } else {
        stage_after_proxy(config)
    }
}

/// The stage in which the attempt on the source itself starts.
pub open spec fn stage_after_proxy(config: SourceConfig) -> StageView {
    if config.evasion is Some {
        StageView::Landing
    } else {
        StageView::Direct
    }
}

/// The stage that follows a failed attempt.
pub open spec fn stage_after_failure(config: SourceConfig, stage: StageView) -> StageView {
    match stage {
        StageView::Proxy => stage_after_proxy(config),
        _ => StageView::Failed,
    }
}

/// Whether a stage can occur with a configuration.
pub open spec fn fits(config: SourceConfig, stage: StageView) -> bool {
    match stage {
        StageView::Proxy => config.proxy is Some,
        StageView::Landing
        | StageView::Challenge { .. }
        | StageView::FirstPause
        | StageView::Revisit
        | StageView::SecondPause
        | StageView::Data => config.evasion is Some,
        _ => true,
    }
}

/// The state that follows `state` when `event` is reported.
///
/// A reply or a missing reply ends the request that is out; the end of a
/// pause ends the pause. An event that does not answer what the stage is
/// waiting for changes nothing, and neither does any event once the strategy
/// has finished.
pub open spec fn next(config: SourceConfig, state: FetchView, event: EventView) -> FetchView {
    match state.stage {
        StageView::Proxy | StageView::Direct | StageView::Data => match event {
            EventView::Replied { status, body } => match reply_rate(config, status, body) {
                Ok(rate) => FetchView {
                    stage: StageView::Resolved(rate),
                    failures: state.failures,
                },
                Err(failure) => FetchView {
                    stage: stage_after_failure(config, state.stage),
                    failures: state.failures.push(failure),
                },
            },
            EventView::Failed => FetchView {
                stage: stage_after_failure(config, state.stage),
                failures: state.failures.push(FetchFailure::Transport),
            },
            EventView::Elapsed => state,
        },
        StageView::Landing => match event {
            EventView::Replied { status, body } => match config.evasion {
                Some(evasion) => match challenge_link(evasion, page_text(body)) {
                    Some(link) => FetchView {
                        stage: StageView::Challenge { link },
                        failures: state.failures,
                    },
                    None => FetchView { stage: StageView::FirstPause, failures: state.failures },
                },
                None => FetchView { stage: StageView::FirstPause, failures: state.failures },
            },
            EventView::Failed => FetchView {
                stage: StageView::Failed,
                failures: state.failures.push(FetchFailure::Transport),
            },
            EventView::Elapsed => state,
        },
        StageView::Challenge { .. } => match event {
            EventView::Elapsed => state,
            _ => FetchView { stage: StageView::FirstPause, failures: state.failures },
        },
        StageView::FirstPause => match event {
            EventView::Elapsed => FetchView { stage: StageView::Revisit, failures: state.failures },
            _ => state,
        },
        StageView::Revisit => match event {
            EventView::Elapsed => state,
            _ => FetchView { stage: StageView::SecondPause, failures: state.failures },
        },
        StageView::SecondPause => match event {
            EventView::Elapsed => FetchView { stage: StageView::Data, failures: state.failures },
            _ => state,
        },
        StageView::Resolved(_) | StageView::Failed => state,
    }
}

/// A request of the browser session for a page.
pub open spec fn session_request(
    config: SourceConfig,
    url: Seq<char>,
    headers: Seq<(Seq<char>, Seq<char>)>,
    format: PayloadFormat,
) -> RequestView {
    RequestView { url, headers, session: true, format, timeout_secs: config.timeout_secs }
}

/// What a strategy in `state` asks its caller to do.
pub open spec fn action_of(config: SourceConfig, state: FetchView) -> ActionView {
    match state.stage {
        StageView::Proxy => ActionView::Send(
            RequestView {
                url: match config.proxy_view() {
                    Some(url) => url,
                    None => config.endpoint@,
                },
                headers: data_header_list(config.accept_view()),
                session: false,
                format: config.format(),
                timeout_secs: config.timeout_secs,
            },
        ),
        StageView::Direct => ActionView::Send(
            RequestView {
                url: config.endpoint@,
                headers: data_header_list(config.accept_view()),
                session: false,
                format: config.format(),
                timeout_secs: config.timeout_secs,
            },
        ),
        StageView::Landing | StageView::Revisit => match config.evasion {
            Some(evasion) => ActionView::Send(
                session_request(
                    config,
                    evasion.landing_page@,
                    browser_header_list(),
                    PayloadFormat::Text,
                ),
            ),
            None => ActionView::Finish(Err(state.failures)),
        },
        StageView::Challenge { link } => match config.evasion {
            Some(evasion) => ActionView::Send(
                session_request(
                    config,
                    link,
                    browser_header_list_with("Referer"@, evasion.landing_page@),
                    PayloadFormat::Text,
                ),
            ),
            None => ActionView::Finish(Err(state.failures)),
        },
        StageView::FirstPause => match config.evasion {
            Some(evasion) => ActionView::Pause { millis: evasion.first_pause_ms },
            None => ActionView::Finish(Err(state.failures)),
        },
        StageView::SecondPause => match config.evasion {
            Some(evasion) => ActionView::Pause { millis: evasion.second_pause_ms },
            None => ActionView::Finish(Err(state.failures)),
        },
        StageView::Data => ActionView::Send(
            session_request(
                config,
                config.endpoint@,
                match config.accept_view() {
                    Some(media) => browser_header_list_with("Accept"@, media),
                    None => browser_header_list(),
                },
                config.format(),
            ),
        ),
        StageView::Resolved(rate) => ActionView::Finish(Ok(rate)),
        StageView::Failed => ActionView::Finish(Err(state.failures)),
    }
}

/// The strategy of one source in one cycle.
pub struct Fetch {
    config: SourceConfig,
    stage: Stage,
    failures: Vec<FetchFailure>,
}

impl View for Fetch {
    type V = FetchView;

    closed spec fn view(&self) -> FetchView {
        FetchView { stage: self.stage@, failures: self.failures@ }
    }
}

/// A rate or a failure, as text.
pub open spec fn rate_view(r: Result<FetchedRate, FetchFailure>) -> Result<RateView, FetchFailure> {
    match r {
        Ok(rate) => Ok(rate@),
        Err(failure) => Err(failure),
    }
}

impl SourceConfig {
    /// Whether a status counts as success.
    pub fn accepts_status(status: u16) -> (ok: bool)
        ensures
            ok == is_success(status),
    {
        200 <= status && status < 300
    }

    /// Reads a body with the extractor of this source.
    pub fn read_body(&self, body: &Body) -> (r: Result<FetchedRate, FetchFailure>)
        ensures
            rate_view(r) == body_rate(*self, body@),
    {
        let values = match body {
            Body::Unreadable => {
                return Err(FetchFailure::Transport);
            },
            Body::Malformed => {
                return Err(FetchFailure::Extraction(ExtractionFailure::Shape));
            },
            Body::Text(text) => match &self.extractor {
                Extractor::Patterns(patterns) => extract(patterns, text.as_str()),
                Extractor::Currency(_) => Err(ExtractionFailure::Shape),
            },
            Body::Quotes(quotes) => match &self.extractor {
                Extractor::Currency(code) => select_quote(quotes, code.as_str()),
                Extractor::Patterns(_) => Err(ExtractionFailure::Shape),
            },
        };
        match values {
            Ok(pair) => Ok(
                FetchedRate::new(self.bank_name.as_str(), self.bank_class.as_str(), pair),
            ),
            Err(failure) => Err(FetchFailure::Extraction(failure)),
        }
    }

    /// Reads the reply to a data call.
    pub fn read_reply(&self, status: u16, body: &Body) -> (r: Result<FetchedRate, FetchFailure>)
        ensures
            rate_view(r) == reply_rate(*self, status, body@),
    {
        if SourceConfig::accepts_status(status) {
            self.read_body(body)
        } else {
            Err(FetchFailure::ResponseStatus(status))
        }
    }
}

impl Evasion {
    /// The address of the challenge resource, given what the search of a
    /// landing page returned: the origin followed by the first capture.
    pub fn challenge_from(&self, found: &Option<Vec<Option<String>>>) -> (link: Option<String>)
        ensures
            (match link {
                Some(url) => Some(url@),
                None => None,
            }) == (match group_text(found_texts(*found), 1) {
                Some(path) => Some(self.origin@ + path),
                None => None,
            }),
    {
        match group_at(found, 1) {
            Some(path) => Some(self.origin.clone().concat(path.as_str())),
            None => None,
        }
    }

    /// Looks in a landing page for the link to the challenge resource.
    pub fn find_challenge(&self, page: &str) -> (link: Option<String>)
        ensures
            (match link {
                Some(url) => Some(url@),
                None => None,
            }) == challenge_link(*self, page@),
    {
        let found = find(self.challenge_expression.as_str(), page);
        self.challenge_from(&found)
    }
}

fn copy_failures(failures: &Vec<FetchFailure>) -> (copy: Vec<FetchFailure>)
    ensures
        copy@ == failures@,
{
    let mut copy: Vec<FetchFailure> = Vec::new();
    let mut i: usize = 0;
    while i < failures.len()
        invariant
            i <= failures.len(),
            copy@ == failures@.take(i as int),
        decreases failures.len() - i,
    {
        copy.push(failures[i]);
        assert(failures@.take(i as int + 1) =~= failures@.take(i as int).push(failures@[i as int]));
        i = i + 1;
    }
    assert(failures@.take(i as int) =~= failures@);
    copy
}

impl Fetch {
    /// The source this strategy fetches.
    pub closed spec fn config(&self) -> SourceConfig {
        self.config
    }

    /// A strategy for `config`, before anything has been sent.
    pub fn start(config: SourceConfig) -> (fetch: Fetch)
        ensures
            fetch.config() == config,
            fetch@ == (FetchView { stage: first_stage(config), failures: Seq::empty() }),
    {
        let stage = if config.proxy.is_some() {
            Stage::Proxy
        } else if config.evasion.is_some() {
            Stage::Landing
        } else {
            Stage::Direct
        };
        Fetch { config, stage, failures: Vec::new() }
    }

    /// Whether the strategy has finished.
    pub fn is_finished(&self) -> (done: bool)
        ensures
            done == (self@.stage is Resolved || self@.stage is Failed),
    {
        match &self.stage {
            Stage::Resolved(_) => true,
            Stage::Failed => true,
            _ => false,
        }
    }

    /// The rate that the strategy has yielded, once it has.
    pub fn rate(&self) -> (rate: Option<FetchedRate>)
        ensures
            match rate {
                Some(r) => self@.stage == StageView::Resolved(r@),
                None => !(self@.stage is Resolved),
            },
    {
        match &self.stage {
            Stage::Resolved(rate) => Some(rate.clone()),
            _ => None,
        }
    }

    /// What the caller is to do now.
    pub fn action(&self) -> (action: Action)
        ensures
            action@ == action_of(self.config(), self@),
    {
        match &self.stage {
            Stage::Proxy => {
                let url = match &self.config.proxy {
                    Some(url) => url.clone(),
                    None => self.config.endpoint.clone(),
                };
                Action::Send(
                    Request {
                        url,
                        headers: data_headers(self.config.accept.as_ref()),
                        session: false,
                        format: self.format(),
                        timeout_secs: self.config.timeout_secs,
                    },
                )
            },
            Stage::Direct => Action::Send(
                Request {
                    url: self.config.endpoint.clone(),
                    headers: data_headers(self.config.accept.as_ref()),
                    session: false,
                    format: self.format(),
                    timeout_secs: self.config.timeout_secs,
                },
            ),
            Stage::Landing | Stage::Revisit => match &self.config.evasion {
                Some(evasion) => Action::Send(
                    Request {
                        url: evasion.landing_page.clone(),
                        headers: browser_headers(),
                        session: true,
                        format: PayloadFormat::Text,
                        timeout_secs: self.config.timeout_secs,
                    },
                ),
                None => Action::Finish(Err(copy_failures(&self.failures))),
            },
            Stage::Challenge { link } => match &self.config.evasion {
                Some(evasion) => Action::Send(
                    Request {
                        url: link.clone(),
                        headers: browser_headers_with("Referer", evasion.landing_page.as_str()),
                        session: true,
                        format: PayloadFormat::Text,
                        timeout_secs: self.config.timeout_secs,
                    },
                ),
                None => Action::Finish(Err(copy_failures(&self.failures))),
            },
            Stage::FirstPause => match &self.config.evasion {
                Some(evasion) => Action::Pause { millis: evasion.first_pause_ms },
                None => Action::Finish(Err(copy_failures(&self.failures))),
            },
            Stage::SecondPause => match &self.config.evasion {
                Some(evasion) => Action::Pause { millis: evasion.second_pause_ms },
                None => Action::Finish(Err(copy_failures(&self.failures))),
            },
            Stage::Data => Action::Send(
                Request {
                    url: self.config.endpoint.clone(),
                    headers: match &self.config.accept {
                        Some(media) => browser_headers_with("Accept", media.as_str()),
                        None => browser_headers(),
                    },
                    session: true,
                    format: self.format(),
                    timeout_secs: self.config.timeout_secs,
                },
            ),
            Stage::Resolved(rate) => Action::Finish(Ok(rate.clone())),
            Stage::Failed => Action::Finish(Err(copy_failures(&self.failures))),
        }
    }

    /// Takes in what happened to the last action and moves to the next stage.
    pub fn step(&mut self, event: Event)
        ensures
            final(self).config() == old(self).config(),
            final(self)@ == next(old(self).config(), old(self)@, event@),
    {
        let awaits_data = match &self.stage {
            Stage::Proxy | Stage::Direct | Stage::Data => true,
            _ => false,
        };
        if awaits_data {
            let result = match &event {
                Event::Replied { status, body } => self.config.read_reply(*status, body),
                Event::Failed => Err(FetchFailure::Transport),
                Event::Elapsed => {
                    return ;
                },
            };
            match result {
                Ok(rate) => {
                    self.stage = Stage::Resolved(rate);
                },
                Err(failure) => {
                    let fallback = match &self.stage {
                        Stage::Proxy => if self.config.evasion.is_some() {
                            Stage::Landing
                        } else {
                            Stage::Direct
                        },
                        _ => Stage::Failed,
                    };
                    self.failures.push(failure);
                    self.stage = fallback;
                },
            }
            return ;
        }
        let following = match (&self.stage, &event) {
            (Stage::Landing, Event::Replied { status: _, body }) => {
                let link = match (&self.config.evasion, body) {
                    (Some(evasion), Body::Text(page)) => evasion.find_challenge(page.as_str()),
                    (Some(evasion), _) => evasion.find_challenge(""),
                    (None, _) => None,
                };
                match link {
                    Some(link) => Stage::Challenge { link },
                    None => Stage::FirstPause,
                }
            },
            (Stage::Landing, Event::Failed) => {
                self.failures.push(FetchFailure::Transport);
                Stage::Failed
            },
            (Stage::Challenge { .. }, Event::Replied { .. }) => Stage::FirstPause,
            (Stage::Challenge { .. }, Event::Failed) => Stage::FirstPause,
            (Stage::FirstPause, Event::Elapsed) => Stage::Revisit,
            (Stage::Revisit, Event::Replied { .. }) => Stage::SecondPause,
            (Stage::Revisit, Event::Failed) => Stage::SecondPause,
            (Stage::SecondPause, Event::Elapsed) => Stage::Data,
            _ => {
                return ;
            },
        };
        self.stage = following;
    }

    fn format(&self) -> (format: PayloadFormat)
        ensures
            format == self.config.format(),
    {
        match &self.config.extractor {
            Extractor::Patterns(_) => PayloadFormat::Text,
            Extractor::Currency(_) => PayloadFormat::Quotes,
        }
    }
}

/// How many more answers a strategy in this stage can take in before it has finished.
pub open spec fn steps_left(stage: StageView) -> nat {
    match stage {
        StageView::Proxy => 7,
        StageView::Landing => 6,
        StageView::Challenge { .. } => 5,
        StageView::FirstPause => 4,
        StageView::Revisit => 3,
        StageView::SecondPause => 2,
        StageView::Data => 1,
        StageView::Direct => 1,
        StageView::Resolved(_) => 0,
        StageView::Failed => 0,
    }
}

/// Whether `event` reports on what `action` asked for.
pub open spec fn answers(event: EventView, action: ActionView) -> bool {
    match action {
        ActionView::Send(_) => event is Replied || event is Failed,
        ActionView::Pause { .. } => event is Elapsed,
        ActionView::Finish(_) => false,
    }
}

/// A strategy starts in a stage that its configuration allows, and never
/// leaves the stages that it allows.
pub proof fn lemma_stages_fit(config: SourceConfig, state: FetchView, event: EventView)
    ensures
        fits(config, first_stage(config)),
        fits(config, state.stage) ==> fits(config, next(config, state, event).stage),
{
}

/// Every event either changes nothing or brings the strategy strictly closer
/// to its end, and the event that answers the pending action always brings it
/// closer: a caller that reports what it was asked for is done after at most
/// seven reports, and no step is ever repeated.
pub proof fn lemma_every_answer_advances(config: SourceConfig, state: FetchView, event: EventView)
    requires
        fits(config, state.stage),
    ensures
        next(config, state, event) == state || steps_left(next(config, state, event).stage)
            < steps_left(state.stage),
        answers(event, action_of(config, state)) ==> steps_left(
            next(config, state, event).stage,
        ) < steps_left(state.stage),
        steps_left(state.stage) == 0 <==> action_of(config, state) is Finish,
{
}

/// Failures only accumulate: a step keeps the failures noted so far and adds
/// at most one, and it adds one exactly when an attempt ends without a rate.
pub proof fn lemma_failures_accumulate(config: SourceConfig, state: FetchView, event: EventView)
    ensures
        next(config, state, event).failures == state.failures || exists|failure: FetchFailure|
            next(config, state, event).failures == state.failures.push(failure),
        next(config, state, event).stage is Resolved ==> next(config, state, event).failures
            == state.failures,
{
    let after = next(config, state, event);
    if after.failures != state.failures {
        let failure = after.failures.last();
        assert(after.failures == state.failures.push(failure));
    }
}

/// A proxy that refuses does not fail the source: whatever status outside
/// 200 to 299 it answers with, and whatever the body, the refusal is noted and
/// the attempt on the source itself begins. For a protected source that is
/// the first visit of the landing page, within the browser session.
pub proof fn lemma_refused_proxy_falls_through(
    config: SourceConfig,
    failures: Seq<FetchFailure>,
    status: u16,
    body: BodyView,
)
    requires
        !is_success(status),
    ensures
        next(
            config,
            FetchView { stage: StageView::Proxy, failures },
            EventView::Replied { status, body },
        ) == (FetchView {
            stage: stage_after_proxy(config),
            failures: failures.push(FetchFailure::ResponseStatus(status)),
        }),
        config.evasion matches Some(evasion) ==> action_of(
            config,
            FetchView {
                stage: stage_after_proxy(config),
                failures: failures.push(FetchFailure::ResponseStatus(status)),
            },
        ) == ActionView::Send(
            session_request(
                config,
                evasion.landing_page@,
                browser_header_list(),
                PayloadFormat::Text,
            ),
        ),
{
}

/// A proxy that delivers ends the strategy at once: with a success status
/// and a body that yields a rate, the strategy holds that rate and asks for
/// nothing more, so no request of the browser session is ever made.
pub proof fn lemma_delivering_proxy_ends_the_strategy(
    config: SourceConfig,
    failures: Seq<FetchFailure>,
    status: u16,
    body: BodyView,
    event: EventView,
)
    requires
        reply_rate(config, status, body) is Ok,
    ensures
        ({
            let after = next(
                config,
                FetchView { stage: StageView::Proxy, failures },
                EventView::Replied { status, body },
            );
            &&& after.stage == StageView::Resolved(reply_rate(config, status, body)->Ok_0)
            &&& action_of(config, after) == ActionView::Finish(
                Ok(reply_rate(config, status, body)->Ok_0),
            )
            &&& next(config, after, event) == after
        }),
{
}

/// Every request presents the user agent first and carries the time limit of
/// its source; the requests of the browser session present the full header
/// set of a page load, the others the header set of a data call.
pub proof fn lemma_requests_identify_themselves(config: SourceConfig, state: FetchView)
    ensures
        action_of(config, state) matches ActionView::Send(request) ==> {
            &&& request.timeout_secs == config.timeout_secs
            &&& request.headers.len() >= 1
            &&& request.headers[0].0 == "User-Agent"@
            &&& request.session ==> request.headers.take(11) == browser_header_list()
            &&& !request.session ==> request.headers == data_header_list(config.accept_view())
        },
{
    if let ActionView::Send(request) = action_of(config, state) {
        if request.session {
            assert(request.headers.take(11) =~= browser_header_list());
        }
    }
}

} // verus!
