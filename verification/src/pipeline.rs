//! The learning run: a search, the pages it leads to and the configured
//! pages, each fetched, extracted, rewritten and merged into the store.
//!
//! The run itself touches neither network nor disk. It says which action
//! it awaits the result of, takes that result as an event, and moves on.
//! A step is short: the work that takes time, the extraction of a page's
//! text among it, is an action, so that the caller need not hold the store
//! while that work is done.

use crate::error::{PersistenceError, ProviderError};
use crate::extract::{read_of, read_page};
use crate::json::{Json, JsonView};
use crate::knowledge::{Knowledge, KnowledgeView};
use crate::provider::{
    is_learnable, learnable, normalization_prompt, normalization_prompt_text, reply_text,
    reply_text_of, result_text, search_hit, search_query, search_query_text, search_text,
    search_text_of, FETCH_TIMEOUT_SECS, NORMALIZE_TIMEOUT_SECS,
};
use crate::config::ChatbotConfig;
use crate::text::{blank, copy_texts, is_blank};
use vstd::prelude::*;

verus! {

/// How the work on one page ended.
#[derive(Clone, Copy, PartialEq, Eq, Structural, Debug)]
pub enum Outcome {
    /// What the page says is in the store.
    Merged,
    /// The page had been learned from before; nothing was fetched.
    Skipped,
    /// A provider failed; the store is as it was.
    Failed(ProviderError),
}

/// How the work on one page ended.
#[derive(Debug, PartialEq, Eq)]
pub struct Report {
    pub url: String,
    pub outcome: Outcome,
}

/// What a `Report` means.
pub struct ReportView {
    pub url: Seq<char>,
    pub outcome: Outcome,
}

impl View for Report {
    type V = ReportView;

    open spec fn view(&self) -> ReportView {
        ReportView { url: self.url@, outcome: self.outcome }
    }
}

/// What the run awaits.
#[derive(Clone, Copy, PartialEq, Eq, Structural, Debug)]
pub enum Phase {
    /// Nothing: the run is over.
    Idle,
    /// The snapshot on disk.
    Loading,
    /// The reply to the search.
    SearchIssued,
    /// The markup of the page under way.
    Fetching,
    /// The text of the page under way.
    Extracting,
    /// The rewritten text of the page under way.
    Normalizing,
    /// The store on disk, with the page under way merged.
    Merged,
    /// The rewritten text of what the search gave.
    Summarizing,
    /// The store on disk, with the search taken in.
    Summarized,
}

/// What the caller is to do next.
#[derive(Debug, PartialEq, Eq)]
pub enum Action {
    /// Nothing: the run is over.
    Rest,
    /// Read the snapshot on disk.
    LoadSnapshot,
    /// Ask the search provider.
    Search { query: String, timeout_secs: u64 },
    /// Fetch a page.
    Fetch { url: String, timeout_secs: u64 },
    /// Extract the text of a page from its markup.
    Extract { page: String },
    /// Have the text service follow `prompt`.
    Normalize { prompt: String, timeout_secs: u64 },
    /// Write the store to disk.
    Persist,
}

/// What an `Action` means.
pub enum ActionView {
    Rest,
    LoadSnapshot,
    Search { query: Seq<char>, timeout_secs: u64 },
    Fetch { url: Seq<char>, timeout_secs: u64 },
    Extract { page: Seq<char> },
    Normalize { prompt: Seq<char>, timeout_secs: u64 },
    Persist,
}

impl View for Action {
    type V = ActionView;

    open spec fn view(&self) -> ActionView {
        match self {
            Action::Rest => ActionView::Rest,
            Action::LoadSnapshot => ActionView::LoadSnapshot,
            Action::Search { query, timeout_secs } => ActionView::Search {
                query: query@,
                timeout_secs: *timeout_secs,
            },
            Action::Fetch { url, timeout_secs } => ActionView::Fetch {
                url: url@,
                timeout_secs: *timeout_secs,
            },
            Action::Extract { page } => ActionView::Extract { page: page@ },
            Action::Normalize { prompt, timeout_secs } => ActionView::Normalize {
                prompt: prompt@,
                timeout_secs: *timeout_secs,
            },
            Action::Persist => ActionView::Persist,
        }
    }
}

/// What came of an action.
#[derive(Debug)]
pub enum Event {
    /// There is no snapshot on disk.
    SnapshotMissing,
    /// The snapshot on disk is this document.
    SnapshotFound(Json),
    /// The snapshot on disk is no document.
    SnapshotMalformed,
    /// The search provider replied with this document.
    SearchReplied(Json),
    /// The search provider failed.
    SearchFailed,
    /// The page has this markup.
    PageFetched(String),
    /// The page could not be fetched.
    FetchFailed,
    /// The page holds this text.
    Extracted(String),
    /// The page could not be read.
    ExtractFailed,
    /// The text service replied with this document.
    Normalized(Json),
    /// The text service failed.
    NormalizeFailed,
    /// The store has been written.
    Persisted,
    /// The store could not be written.
    PersistFailed,
}

/// What an `Event` means.
pub enum EventView {
    SnapshotMissing,
    SnapshotFound(JsonView),
    SnapshotMalformed,
    SearchReplied(JsonView),
    SearchFailed,
    PageFetched(Seq<char>),
    FetchFailed,
    Extracted(Seq<char>),
    ExtractFailed,
    Normalized(JsonView),
    NormalizeFailed,
    Persisted,
    PersistFailed,
}

impl View for Event {
    type V = EventView;

    open spec fn view(&self) -> EventView {
        match self {
            Event::SnapshotMissing => EventView::SnapshotMissing,
            Event::SnapshotFound(document) => EventView::SnapshotFound(document@),
            Event::SnapshotMalformed => EventView::SnapshotMalformed,
            Event::SearchReplied(reply) => EventView::SearchReplied(reply@),
            Event::SearchFailed => EventView::SearchFailed,
            Event::PageFetched(page) => EventView::PageFetched(page@),
            Event::FetchFailed => EventView::FetchFailed,
            Event::Extracted(content) => EventView::Extracted(content@),
            Event::ExtractFailed => EventView::ExtractFailed,
            Event::Normalized(reply) => EventView::Normalized(reply@),
            Event::NormalizeFailed => EventView::NormalizeFailed,
            Event::Persisted => EventView::Persisted,
            Event::PersistFailed => EventView::PersistFailed,
        }
    }
}

/// A learning run.
#[derive(Debug)]
pub struct LearningRun {
    pub phase: Phase,
    /// The persona's name.
    pub name: String,
    /// The configured pages.
    pub seeds: Vec<String>,
    /// How many of the configured pages the run has turned to.
    pub next_seed: usize,
    /// What the search brought, before it is rewritten.
    pub search_text: String,
    /// Whether the search has been taken into the store.
    pub summarized: bool,
    /// The page under way.
    pub url: String,
    /// The markup of the page under way, while its text is extracted.
    pub page: String,
    /// The text of the page under way, before it is rewritten.
    pub content: String,
    /// How the work on each page ended, in the order in which it ended.
    pub reports: Vec<Report>,
    /// The failure that the search stage met, if it met one.
    pub search_error: Option<ProviderError>,
    /// The failure that ended the run, if one did.
    pub failure: Option<PersistenceError>,
}

/// What a `LearningRun` means.
#[verifier::ext_equal]
pub struct RunView {
    pub phase: Phase,
    pub name: Seq<char>,
    pub seeds: Seq<Seq<char>>,
    pub next_seed: nat,
    pub search_text: Seq<char>,
    pub summarized: bool,
    pub url: Seq<char>,
    pub page: Seq<char>,
    pub content: Seq<char>,
    pub reports: Seq<ReportView>,
    pub search_error: Option<ProviderError>,
    pub failure: Option<PersistenceError>,
}

/// What the reports mean, one by one.
pub open spec fn report_views(reports: Seq<Report>) -> Seq<ReportView> {
    reports.map_values(|report: Report| report@)
}

impl View for LearningRun {
    type V = RunView;

    open spec fn view(&self) -> RunView {
        RunView {
            phase: self.phase,
            name: self.name@,
            seeds: self.seeds.deep_view(),
            next_seed: self.next_seed as nat,
            search_text: self.search_text@,
            summarized: self.summarized,
            url: self.url@,
            page: self.page@,
            content: self.content@,
            reports: report_views(self.reports@),
            search_error: self.search_error,
            failure: self.failure,
        }
    }
}

impl RunView {
    /// A run for the persona `name` and the configured pages `seeds`,
    /// before anything has come of it.
    pub open spec fn begin(name: Seq<char>, seeds: Seq<Seq<char>>) -> RunView {
        RunView {
            phase: Phase::Loading,
            name,
            seeds,
            next_seed: 0,
            search_text: Seq::empty(),
            summarized: false,
            url: Seq::empty(),
            page: Seq::empty(),
            content: Seq::empty(),
            reports: Seq::empty(),
            search_error: None,
            failure: None,
        }
    }

    /// The query of this run.
    pub open spec fn query(self) -> Seq<char> {
        search_query_text(self.name)
    }

    /// The action that this run awaits the result of.
    pub open spec fn pending(self) -> ActionView {
        match self.phase {
            Phase::Idle => ActionView::Rest,
            Phase::Loading => ActionView::LoadSnapshot,
            Phase::SearchIssued => ActionView::Search {
                query: self.query(),
                timeout_secs: FETCH_TIMEOUT_SECS,
            },
            Phase::Fetching => ActionView::Fetch { url: self.url, timeout_secs: FETCH_TIMEOUT_SECS },
            Phase::Extracting => ActionView::Extract { page: self.page },
            Phase::Normalizing => ActionView::Normalize {
                prompt: normalization_prompt_text(self.name, self.content),
                timeout_secs: NORMALIZE_TIMEOUT_SECS,
            },
            Phase::Merged => ActionView::Persist,
            Phase::Summarizing => ActionView::Normalize {
                prompt: normalization_prompt_text(self.name, self.search_text),
                timeout_secs: NORMALIZE_TIMEOUT_SECS,
            },
            Phase::Summarized => ActionView::Persist,
        }
    }

    /// This run with one report more: the work on `url` ended in
    /// `outcome`.
    pub open spec fn reported(self, url: Seq<char>, outcome: Outcome) -> RunView {
        RunView { reports: self.reports.push(ReportView { url, outcome }), ..self }
    }

    /// This run, over because nothing is left to do.
    pub open spec fn finished(self) -> RunView {
        RunView { phase: Phase::Idle, ..self }
    }

    /// This run, over because the store on disk failed it.
    pub open spec fn aborted(self, failure: PersistenceError) -> RunView {
        RunView { phase: Phase::Idle, failure: Some(failure), ..self }
    }

    /// This run once it has turned to the configured pages that are left.
    /// Those that `store` has learned from are skipped; the first other
    /// one is fetched; with none left the run is over.
    pub open spec fn advance(self, store: KnowledgeView) -> RunView
        decreases self.seeds.len() - self.next_seed,
    {
        if self.next_seed >= self.seeds.len() {
            self.finished()
        } else {
            let url = self.seeds[self.next_seed as int];
            let turned = RunView { next_seed: self.next_seed + 1, ..self };
            if store.has_learned(url) {
                turned.reported(url, Outcome::Skipped).advance(store)
            } else {
                RunView { phase: Phase::Fetching, url, ..turned }
            }
        }
    }

    /// This run once the work on a page has ended. After the page that
    /// the search led to, what the search gave is rewritten; after a
    /// configured page, the next one has its turn.
    pub open spec fn after_page(self, store: KnowledgeView) -> RunView {
        if self.summarized {
            self.advance(store)
        } else {
            RunView { phase: Phase::Summarizing, ..self }
        }
    }

    /// This run once it has turned to the page `url`: a page that `store`
    /// has learned from is skipped, any other is fetched.
    pub open spec fn turn_to(self, store: KnowledgeView, url: Seq<char>) -> RunView {
        if store.has_learned(url) {
            self.reported(url, Outcome::Skipped).after_page(store)
        } else {
            RunView { phase: Phase::Fetching, url, ..self }
        }
    }

    /// This run once it has let go of the markup of the page under way.
    pub open spec fn without_markup(self) -> RunView {
        RunView { page: Seq::empty(), ..self }
    }

    /// This run once the work on the page under way has failed.
    pub open spec fn page_failed(self, store: KnowledgeView, error: ProviderError) -> RunView {
        self.reported(self.url, Outcome::Failed(error)).after_page(store)
    }

    /// This run once the search has been taken into the store.
    pub open spec fn search_recorded(self, error: Option<ProviderError>) -> RunView {
        RunView { phase: Phase::Summarized, summarized: true, search_error: error, ..self }
    }
}

/// The run and the store after `event`. An event that the run does not
/// await changes nothing.
pub open spec fn step(run: RunView, store: KnowledgeView, event: EventView) -> (
    RunView,
    KnowledgeView,
) {
    match (run.phase, event) {
        (Phase::Loading, EventView::SnapshotMissing) => (
            RunView { phase: Phase::SearchIssued, ..run },
            store,
        ),
        (Phase::Loading, EventView::SnapshotFound(document)) => match store.loaded(
            Some(document),
        ) {
            Ok(loaded) => (RunView { phase: Phase::SearchIssued, ..run }, loaded),
            Err(error) => (run.aborted(error), store),
        },
        (Phase::Loading, EventView::SnapshotMalformed) => (
            run.aborted(PersistenceError::Malformed),
            store,
        ),
        (Phase::SearchIssued, EventView::SearchFailed) => (
            run.search_recorded(Some(ProviderError::Search)),
            store.with_search(run.query(), Seq::empty()),
        ),
        (Phase::SearchIssued, EventView::SearchReplied(reply)) => {
            let heard = RunView {
                search_text: search_text_of(result_text(reply, "snippet"@)),
                ..run
            };
            match result_text(reply, "link"@) {
                Some(url) => if learnable(url) {
                    (heard.turn_to(store, url), store)
                } else {
                    (RunView { phase: Phase::Summarizing, ..heard }, store)
                },
                None => (RunView { phase: Phase::Summarizing, ..heard }, store),
            }
        },
        (Phase::Fetching, EventView::FetchFailed) => (
            run.page_failed(store, ProviderError::Fetch),
            store,
        ),
        (Phase::Fetching, EventView::PageFetched(page)) => (
            RunView { phase: Phase::Extracting, page, ..run },
            store,
        ),
        (Phase::Extracting, EventView::ExtractFailed) => (
            run.without_markup().page_failed(store, ProviderError::Extract),
            store,
        ),
        (Phase::Extracting, EventView::Extracted(content)) => if blank(content) {
            (run.without_markup().page_failed(store, ProviderError::Extract), store)
        } else {
            (RunView { phase: Phase::Normalizing, content, ..run.without_markup() }, store)
        },
        (Phase::Normalizing, EventView::NormalizeFailed) => (
            run.page_failed(store, ProviderError::Normalize),
            store,
        ),
        (Phase::Normalizing, EventView::Normalized(reply)) => if reply_text_of(reply).len() == 0 {
            (run.page_failed(store, ProviderError::Normalize), store)
        } else {
            (
                RunView { phase: Phase::Merged, ..run.reported(run.url, Outcome::Merged) },
                store.with_page(run.url, reply_text_of(reply)),
            )
        },
        (Phase::Merged, EventView::Persisted) => (run.after_page(store), store),
        (Phase::Merged, EventView::PersistFailed) => (
            run.aborted(PersistenceError::Unwritable),
            store,
        ),
        (Phase::Summarizing, EventView::NormalizeFailed) => (
            run.search_recorded(Some(ProviderError::Normalize)),
            store.with_search(run.query(), Seq::empty()),
        ),
        (Phase::Summarizing, EventView::Normalized(reply)) => (
            run.search_recorded(None),
            store.with_search(run.query(), reply_text_of(reply)),
        ),
        (Phase::Summarized, EventView::Persisted) => (run.advance(store), store),
        (Phase::Summarized, EventView::PersistFailed) => (
            run.aborted(PersistenceError::Unwritable),
            store,
        ),
        _ => (run, store),
    }
}

/// What comes of extracting the text of `page`: its text, or a failure
/// where the page is too long to be read.
pub open spec fn extraction_of(page: Seq<char>) -> EventView {
    match read_of(page) {
        Some(content) => EventView::Extracted(content),
        None => EventView::ExtractFailed,
    }
}

/// Extracts the text of `page`, and says what came of it.
pub fn extracted(page: &str) -> (event: Event)
    ensures
        event@ == extraction_of(page@),
{
    match read_page(page) {
        Some(content) => Event::Extracted(content),
        None => Event::ExtractFailed,
    }
}

impl LearningRun {
    /// A run for the persona and the pages of `config`. It awaits the
    /// snapshot on disk.
    pub fn of(config: &ChatbotConfig) -> (run: Self)
        ensures
            run@ == RunView::begin(
                config@.character.name,
                config@.knowledge_sources.self_learning_urls,
            ),
    {
        LearningRun::new(
            config.character.name.clone(),
            copy_texts(&config.knowledge_sources.self_learning_urls),
        )
    }

    /// A run for the persona `name` and the configured pages `seeds`. It
    /// awaits the snapshot on disk.
    pub fn new(name: String, seeds: Vec<String>) -> (run: Self)
        ensures
            run@ == RunView::begin(name@, seeds.deep_view()),
    {
        let run = LearningRun {
            phase: Phase::Loading,
            name,
            seeds,
            next_seed: 0,
            search_text: String::new(),
            summarized: false,
            url: String::new(),
            page: String::new(),
            content: String::new(),
            reports: Vec::new(),
            search_error: None,
            failure: None,
        };
        proof {
            assert(run@ =~= RunView::begin(name@, seeds.deep_view()));
        }
        run
    }

    /// The action that this run awaits the result of.
    pub fn pending(&self) -> (action: Action)
        ensures
            action@ == self@.pending(),
    {
        match self.phase {
            Phase::Idle => Action::Rest,
            Phase::Loading => Action::LoadSnapshot,
            Phase::SearchIssued => Action::Search {
                query: search_query(self.name.as_str()),
                timeout_secs: FETCH_TIMEOUT_SECS,
            },
            Phase::Fetching => Action::Fetch {
                url: self.url.clone(),
                timeout_secs: FETCH_TIMEOUT_SECS,
            },
            Phase::Extracting => Action::Extract { page: self.page.clone() },
            Phase::Normalizing => Action::Normalize {
                prompt: normalization_prompt(self.name.as_str(), self.content.as_str()),
                timeout_secs: NORMALIZE_TIMEOUT_SECS,
            },
            Phase::Merged => Action::Persist,
            Phase::Summarizing => Action::Normalize {
                prompt: normalization_prompt(self.name.as_str(), self.search_text.as_str()),
                timeout_secs: NORMALIZE_TIMEOUT_SECS,
            },
            Phase::Summarized => Action::Persist,
        }
    }

    /// Notes that the work on `url` ended in `outcome`.
    fn report(&mut self, url: String, outcome: Outcome)
        ensures
            final(self)@ == old(self)@.reported(url@, outcome),
    {
        self.reports.push(Report { url, outcome });
        proof {
            assert(report_views(self.reports@) =~= report_views(old(self).reports@).push(
                ReportView { url: url@, outcome },
            ));
            assert(self@ =~= old(self)@.reported(url@, outcome));
        }
    }

    /// Ends the run because the store on disk failed it.
    fn abort(&mut self, failure: PersistenceError)
        ensures
            final(self)@ == old(self)@.aborted(failure),
    {
        self.phase = Phase::Idle;
        self.failure = Some(failure);
    }

    /// Turns to the configured pages that are left.
    fn advance(&mut self, store: &Knowledge)
        ensures
            final(self)@ == old(self)@.advance(store@),
    {
        while self.next_seed < self.seeds.len()
            invariant
                self@.advance(store@) == old(self)@.advance(store@),
            decreases self.seeds.len() - self.next_seed,
        {
            let ghost before = self@;
            let url = self.seeds[self.next_seed].clone();
            self.next_seed += 1;
            proof {
                assert(url@ == before.seeds[before.next_seed as int]);
                assert(self@ =~= RunView { next_seed: before.next_seed + 1, ..before });
            }
            if store.has_learned(url.as_str()) {
                self.report(url, Outcome::Skipped);
            } else {
                self.url = url;
                self.phase = Phase::Fetching;
                proof {
                    assert(self@ =~= before.advance(store@));
                }
                return ;
            }
        }
        self.phase = Phase::Idle;
    }

    /// Moves on from a page whose work has ended.
    fn after_page(&mut self, store: &Knowledge)
        ensures
            final(self)@ == old(self)@.after_page(store@),
    {
        if self.summarized {
            self.advance(store);
        } else {
            self.phase = Phase::Summarizing;
        }
    }

    /// Turns to the page `url`: a page that `store` has learned from is
    /// skipped, and nothing is fetched on its account; any other is
    /// fetched.
    pub fn turn_to(&mut self, store: &Knowledge, url: String)
        ensures
            final(self)@ == old(self)@.turn_to(store@, url@),
    {
        if store.has_learned(url.as_str()) {
            self.report(url, Outcome::Skipped);
            self.after_page(store);
        } else {
            self.url = url;
            self.phase = Phase::Fetching;
        }
    }

    /// Gives up the page under way.
    fn page_failed(&mut self, store: &Knowledge, error: ProviderError)
        ensures
            final(self)@ == old(self)@.page_failed(store@, error),
    {
        let url = self.url.clone();
        self.report(url, Outcome::Failed(error));
        self.after_page(store);
    }

    /// Takes the search into the store.
    fn record_search(
        &mut self,
        store: &mut Knowledge,
        summary: String,
        error: Option<ProviderError>,
    )
        ensures
            final(self)@ == old(self)@.search_recorded(error),
            final(store)@ == old(store)@.with_search(old(self)@.query(), summary@),
    {
        store.record_search(search_query(self.name.as_str()), summary);
        self.phase = Phase::Summarized;
        self.summarized = true;
        self.search_error = error;
    }

    /// Takes `event` as the result of the action that the run awaited,
    /// and says what to do next. An event that the run did not await
    /// changes nothing, and the answer is the awaited action again.
    pub fn step(&mut self, store: &mut Knowledge, event: Event) -> (action: Action)
        ensures
            (final(self)@, final(store)@) == step(old(self)@, old(store)@, event@),
            action@ == final(self)@.pending(),
    {
        match self.phase {
            Phase::Idle => {},
            Phase::Loading => match event {
                Event::SnapshotMissing => {
                    self.phase = Phase::SearchIssued;
                },
                Event::SnapshotFound(document) => match store.load(Some(&document)) {
                    Ok(()) => {
                        self.phase = Phase::SearchIssued;
                    },
                    Err(error) => {
                        self.abort(error);
                    },
                },
                Event::SnapshotMalformed => {
                    self.abort(PersistenceError::Malformed);
                },
                _ => {},
            },
            Phase::SearchIssued => match event {
                Event::SearchFailed => {
                    self.record_search(store, String::new(), Some(ProviderError::Search));
                },
                Event::SearchReplied(reply) => {
                    let hit = search_hit(&reply);
                    self.search_text = search_text(&hit.snippet);
                    match hit.link {
                        Some(url) => {
                            if is_learnable(url.as_str()) {
                                self.turn_to(store, url);
                            } else {
                                self.phase = Phase::Summarizing;
                            }
                        },
                        None => {
                            self.phase = Phase::Summarizing;
                        },
                    }
                },
                _ => {},
            },
            Phase::Fetching => match event {
                Event::FetchFailed => {
                    self.page_failed(store, ProviderError::Fetch);
                },
                Event::PageFetched(page) => {
                    self.page = page;
                    self.phase = Phase::Extracting;
                },
                _ => {},
            },
            Phase::Extracting => match event {
                Event::ExtractFailed => {
                    self.page = String::new();
                    self.page_failed(store, ProviderError::Extract);
                },
                Event::Extracted(content) => {
                    self.page = String::new();
                    if is_blank(content.as_str()) {
                        self.page_failed(store, ProviderError::Extract);
                    } else {
                        self.content = content;
                        self.phase = Phase::Normalizing;
                    }
                },
                _ => {},
            },
            Phase::Normalizing => match event {
                Event::NormalizeFailed => {
                    self.page_failed(store, ProviderError::Normalize);
                },
                Event::Normalized(reply) => {
                    let text = reply_text(&reply);
                    if text.as_str().is_empty() {
                        self.page_failed(store, ProviderError::Normalize);
                    } else {
                        store.record_page(self.url.as_str(), text);
                        let url = self.url.clone();
                        self.report(url, Outcome::Merged);
                        self.phase = Phase::Merged;
                    }
                },
                _ => {},
            },
            Phase::Merged => match event {
                Event::Persisted => {
                    self.after_page(store);
                },
                Event::PersistFailed => {
                    self.abort(PersistenceError::Unwritable);
                },
                _ => {},
            },
            Phase::Summarizing => match event {
                Event::NormalizeFailed => {
                    self.record_search(store, String::new(), Some(ProviderError::Normalize));
                },
                Event::Normalized(reply) => {
                    let summary = reply_text(&reply);
                    self.record_search(store, summary, None);
                },
                _ => {},
            },
            Phase::Summarized => match event {
                Event::Persisted => {
                    self.advance(store);
                },
                Event::PersistFailed => {
                    self.abort(PersistenceError::Unwritable);
                },
                _ => {},
            },
        }
        self.pending()
    }
}

} // verus!
