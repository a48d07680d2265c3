//! What holds of every learning run: which pages it leaves alone, what it
//! does to the store, and what can end it.

use crate::error::ProviderError;
use crate::knowledge::KnowledgeView;
use crate::pipeline::{step, ActionView, EventView, Outcome, Phase, ReportView, RunView};
use crate::provider::{
    reply_text_of, result_text, search_text_of, FETCH_TIMEOUT_SECS, NORMALIZE_TIMEOUT_SECS,
};
use crate::text::blank;
use vstd::prelude::*;

verus! {

impl RunView {
    /// Whether this run leaves alone what `store` has learned: it awaits
    /// neither the page nor the rewritten text of a page that `store` has
    /// learned from.
    pub open spec fn spares_learned(self, store: KnowledgeView) -> bool {
        self.phase == Phase::Fetching || self.phase == Phase::Extracting || self.phase
            == Phase::Normalizing ==> !store.has_learned(self.url)
    }

    /// Whether this run has every report of `earlier`, in the same places.
    pub open spec fn reports_extend(self, earlier: RunView) -> bool {
        earlier.reports.is_prefix_of(self.reports)
    }
}

/// A run that turns to the configured pages fetches a page only if the
/// store has not learned from it, or is over, without a failure of its
/// own making; it keeps the reports it had.
pub proof fn lemma_advance(run: RunView, store: KnowledgeView)
    ensures
        run.advance(store).phase == Phase::Fetching || run.advance(store).phase == Phase::Idle,
        run.advance(store).spares_learned(store),
        run.advance(store).reports_extend(run),
        run.advance(store).failure == run.failure,
    decreases run.seeds.len() - run.next_seed,
{
    if run.next_seed < run.seeds.len() {
        let url = run.seeds[run.next_seed as int];
        let turned = RunView { next_seed: run.next_seed + 1, ..run };
        if store.has_learned(url) {
            lemma_advance(turned.reported(url, Outcome::Skipped), store);
        }
    }
}

/// Every call that a run asks for has its time: a search and a fetch the
/// shorter one, the text service the longer one.
pub proof fn lemma_every_call_is_timed(run: RunView)
    ensures
        match run.pending() {
            ActionView::Search { timeout_secs, .. } => timeout_secs == FETCH_TIMEOUT_SECS,
            ActionView::Fetch { timeout_secs, .. } => timeout_secs == FETCH_TIMEOUT_SECS,
            ActionView::Normalize { timeout_secs, .. } => timeout_secs == NORMALIZE_TIMEOUT_SECS,
            _ => true,
        },
        NORMALIZE_TIMEOUT_SECS >= FETCH_TIMEOUT_SECS,
{
}

/// A page that the store has learned from is skipped. Turning to it leaves
/// a report that says so, and the run goes on as after any page whose
/// work has ended: it does not await that page, nor anything made from
/// it. Turning to a page never changes the store.
pub proof fn lemma_learned_page_is_skipped(run: RunView, store: KnowledgeView, url: Seq<char>)
    requires
        store.has_learned(url),
    ensures
        run.turn_to(store, url) == run.reported(url, Outcome::Skipped).after_page(store),
        run.turn_to(store, url).reports[run.reports.len() as int] == (ReportView {
            url,
            outcome: Outcome::Skipped,
        }),
        run.turn_to(store, url).pending() != (ActionView::Fetch {
            url,
            timeout_secs: FETCH_TIMEOUT_SECS,
        }),
        run.turn_to(store, url).phase == Phase::Fetching || run.turn_to(store, url).phase
            == Phase::Extracting || run.turn_to(store, url).phase == Phase::Normalizing
            ==> run.turn_to(store, url).url != url,
        run.turn_to(store, url).spares_learned(store),
{
    let skipped = run.reported(url, Outcome::Skipped);
    lemma_advance(skipped, store);
    assert(skipped.reports[run.reports.len() as int] == ReportView {
        url,
        outcome: Outcome::Skipped,
    });
}

/// What every step keeps. Wherever a step turns to what follows a page,
/// it fetches only what the store has not learned from, and leaves the
/// failure of the run as it was.
proof fn lemma_step_keeps(run: RunView, store: KnowledgeView, event: EventView)
    ensures
        run.spares_learned(store) ==> step(run, store, event).0.spares_learned(
            step(run, store, event).1,
        ),
        step(run, store, event).0.failure == run.failure || event is SnapshotFound || event
            is SnapshotMalformed || event is PersistFailed,
{
    match (run.phase, event) {
        (Phase::SearchIssued, EventView::SearchReplied(reply)) => {
            let heard = RunView {
                search_text: search_text_of(result_text(reply, "snippet"@)),
                ..run
            };
            match result_text(reply, "link"@) {
                Some(url) => {
                    lemma_advance(heard.reported(url, Outcome::Skipped), store);
                },
                None => {},
            }
        },
        (Phase::Fetching, _) => {
            lemma_advance(run.reported(run.url, Outcome::Failed(ProviderError::Fetch)), store);
        },
        (Phase::Extracting, _) => {
            lemma_advance(
                run.without_markup().reported(run.url, Outcome::Failed(ProviderError::Extract)),
                store,
            );
        },
        (Phase::Normalizing, _) => {
            lemma_advance(run.reported(run.url, Outcome::Failed(ProviderError::Normalize)), store);
        },
        (Phase::Merged, _) => {
            lemma_advance(run, store);
        },
        (Phase::Summarized, _) => {
            lemma_advance(run, store);
        },
        _ => {},
    }
}

/// A run that leaves alone what the store has learned does so after every
/// event: no step has it await a page that the store has learned from.
pub proof fn lemma_step_spares_learned(run: RunView, store: KnowledgeView, event: EventView)
    requires
        run.spares_learned(store),
    ensures
        step(run, store, event).0.spares_learned(step(run, store, event).1),
{
    lemma_step_keeps(run, store, event);
}

/// No page is learned from twice. Where the pages that the store has
/// learned from differ from each other, and the run leaves alone what the
/// store has learned, they differ from each other after every event but
/// the loading of a snapshot, which may hold a page once more.
pub proof fn lemma_no_page_is_learned_twice(run: RunView, store: KnowledgeView, event: EventView)
    requires
        run.spares_learned(store),
        store.learned_urls.no_duplicates(),
        !(event is SnapshotFound),
    ensures
        step(run, store, event).1.learned_urls.no_duplicates(),
        store.learned_urls.is_prefix_of(step(run, store, event).1.learned_urls),
{
    let after = step(run, store, event).1.learned_urls;
    if after != store.learned_urls {
        assert(after == store.learned_urls.push(run.url));
        assert forall|i: int, j: int| 0 <= i < after.len() && 0 <= j < after.len() && i
            != j implies after[i] != after[j] by {
            if i < store.learned_urls.len() && j < store.learned_urls.len() {
                assert(store.learned_urls[i] != store.learned_urls[j]);
            } else if i < store.learned_urls.len() {
                assert(store.learned_urls[i] != run.url);
            } else {
                assert(store.learned_urls[j] != run.url);
            }
        }
    }
}

/// The store is saved after every change but the loading of a snapshot:
/// an event that changes the store has the run await the writing of the
/// store, before anything else is done.
pub proof fn lemma_every_change_is_saved(run: RunView, store: KnowledgeView, event: EventView)
    ensures
        step(run, store, event).1 == store || event is SnapshotFound || step(
            run,
            store,
            event,
        ).0.pending() == ActionView::Persist,
{
}

/// What the store has learned stays: after every event the store holds
/// the queries and the pages that it held, in their places, and what came
/// in behind them.
pub proof fn lemma_histories_only_grow(run: RunView, store: KnowledgeView, event: EventView)
    ensures
        store.search_history.is_prefix_of(step(run, store, event).1.search_history),
        store.learned_urls.is_prefix_of(step(run, store, event).1.learned_urls),
{
    let after = step(run, store, event).1;
    if after != store {
        assert(store.search_history.is_prefix_of(after.search_history));
        assert(store.learned_urls.is_prefix_of(after.learned_urls));
    }
}

/// Only the store on disk ends a run in failure: no other event than a
/// snapshot that cannot be read or a store that cannot be written changes
/// the failure that the run holds.
pub proof fn lemma_only_the_disk_fails_a_run(run: RunView, store: KnowledgeView, event: EventView)
    ensures
        step(run, store, event).0.failure == run.failure || event is SnapshotFound || event
            is SnapshotMalformed || event is PersistFailed,
{
    lemma_step_keeps(run, store, event);
}

/// Whether `event` tells of a provider that failed at the page under way
/// of a run in `phase`: the page could not be fetched, could not be read
/// or held no text, or the text service failed or sent nothing.
pub open spec fn page_failure(phase: Phase, event: EventView) -> Option<ProviderError> {
    match (phase, event) {
        (Phase::Fetching, EventView::FetchFailed) => Some(ProviderError::Fetch),
        (Phase::Extracting, EventView::ExtractFailed) => Some(ProviderError::Extract),
        (Phase::Extracting, EventView::Extracted(content)) => if blank(content) {
            Some(ProviderError::Extract)
        } else {
            None
        },
        (Phase::Normalizing, EventView::NormalizeFailed) => Some(ProviderError::Normalize),
        (Phase::Normalizing, EventView::Normalized(reply)) => if reply_text_of(reply).len() == 0 {
            Some(ProviderError::Normalize)
        } else {
            None
        },
        _ => None,
    }
}

/// A provider that fails at one page ends the work on that page and
/// nothing else: the store is as it was, the run has a report of the
/// failure behind those it had, no failure of the run comes of it, and
/// the run goes on to what follows the page.
pub proof fn lemma_page_failure_is_isolated(run: RunView, store: KnowledgeView, event: EventView)
    requires
        page_failure(run.phase, event) is Some,
    ensures
        step(run, store, event).1 == store,
        step(run, store, event).0.failure == run.failure,
        step(run, store, event).0.reports_extend(run),
        step(run, store, event).0.reports[run.reports.len() as int] == (ReportView {
            url: run.url,
            outcome: Outcome::Failed(page_failure(run.phase, event)->0),
        }),
        step(run, store, event).0.phase != run.phase || step(run, store, event).0.next_seed
            > run.next_seed,
{
    let error = page_failure(run.phase, event)->0;
    let held = if run.phase == Phase::Extracting {
        run.without_markup()
    } else {
        run
    };
    let noted = held.reported(run.url, Outcome::Failed(error));
    lemma_advance(noted, store);
    lemma_advance_moves(noted, store);
    assert(noted.reports[run.reports.len() as int] == ReportView {
        url: run.url,
        outcome: Outcome::Failed(error),
    });
    assert(run.reports.is_prefix_of(noted.reports));
}

/// A run that turns to the configured pages and fetches one has moved on
/// among them.
proof fn lemma_advance_moves(run: RunView, store: KnowledgeView)
    ensures
        run.advance(store).phase == Phase::Fetching ==> run.advance(store).next_seed
            > run.next_seed,
    decreases run.seeds.len() - run.next_seed,
{
    if run.next_seed < run.seeds.len() {
        let url = run.seeds[run.next_seed as int];
        let turned = RunView { next_seed: run.next_seed + 1, ..run };
        if store.has_learned(url) {
            lemma_advance_moves(turned.reported(url, Outcome::Skipped), store);
        }
    }
}

} // verus!
