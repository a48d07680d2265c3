use learning_chatbot::error::{PersistenceError, ProviderError};
use learning_chatbot::json::Json;
use learning_chatbot::knowledge::Knowledge;
use learning_chatbot::pipeline::{extracted, Action, Event, LearningRun, Outcome, Phase, Report};
use learning_chatbot::provider::normalization_prompt;

fn text(value: &str) -> Json {
    Json::Text(value.to_string())
}

fn object(members: Vec<(&str, Json)>) -> Json {
    Json::Object(members.into_iter().map(|(name, value)| (name.to_string(), value)).collect())
}

fn list(items: Vec<Json>) -> Json {
    Json::List(items)
}

fn service_reply(answer: &str) -> Json {
    object(vec![(
        "candidates",
        list(vec![object(vec![(
            "content",
            object(vec![("parts", list(vec![object(vec![("text", text(answer))])]))]),
        )])]),
    )])
}

fn search_reply(snippet: &str, link: &str) -> Json {
    object(vec![("items", list(vec![object(vec![("snippet", text(snippet)), ("link", text(link))])]))])
}

fn page(paragraph: &str) -> String {
    format!("<html><body><p>{}</p></body></html>", paragraph)
}

fn run(seeds: &[&str]) -> LearningRun {
    LearningRun::new("Alya".to_string(), seeds.iter().map(|seed| seed.to_string()).collect())
}

fn fetch(url: &str) -> Action {
    Action::Fetch { url: url.to_string(), timeout_secs: 10 }
}

fn normalize(content: &str) -> Action {
    Action::Normalize { prompt: normalization_prompt("Alya", content), timeout_secs: 30 }
}

fn report(url: &str, outcome: Outcome) -> Report {
    Report { url: url.to_string(), outcome }
}

fn fact(store: &Knowledge, key: &str) -> Option<String> {
    store.facts.get(&key.to_string()).cloned()
}

const QUERY: &str = "Alya character personality traits background story";

/// Hands the run the markup of the page under way, and the text that is
/// extracted from it.
fn read_page(run: &mut LearningRun, store: &mut Knowledge, markup: String) -> Action {
    assert_eq!(run.step(store, Event::PageFetched(markup.clone())), Action::Extract { page: markup.clone() });
    assert_eq!(run.phase, Phase::Extracting);
    let action = run.step(store, extracted(&markup));
    assert_eq!(run.page, "");
    action
}

/// Brings a run past the snapshot and a search that failed.
fn past_the_search(run: &mut LearningRun, store: &mut Knowledge) -> Action {
    assert_eq!(run.step(store, Event::SnapshotMissing), Action::Search { query: QUERY.to_string(), timeout_secs: 10 });
    assert_eq!(run.step(store, Event::SearchFailed), Action::Persist);
    run.step(store, Event::Persisted)
}

#[test]
fn a_new_run_awaits_the_snapshot() {
    let run = run(&["u1"]);
    assert_eq!(run.phase, Phase::Loading);
    assert_eq!(run.pending(), Action::LoadSnapshot);
    assert!(run.reports.is_empty());
    assert_eq!(run.failure, None);
    assert_eq!(run.search_error, None);
}

#[test]
fn a_failing_page_among_three_spares_the_other_two() {
    let mut run = run(&["u1", "u2", "u3"]);
    let mut store = Knowledge::new();
    assert_eq!(past_the_search(&mut run, &mut store), fetch("u1"));
    assert_eq!(read_page(&mut run, &mut store, page("one")), normalize("one\n\n"));
    assert_eq!(run.step(&mut store, Event::Normalized(service_reply("I am one."))), Action::Persist);
    assert_eq!(run.step(&mut store, Event::Persisted), fetch("u2"));
    let empty = "<html><body><div>nothing to read</div></body></html>".to_string();
    assert_eq!(read_page(&mut run, &mut store, empty), fetch("u3"));
    assert_eq!(read_page(&mut run, &mut store, page("three")), normalize("three\n\n"));
    assert_eq!(run.step(&mut store, Event::Normalized(service_reply("I am three."))), Action::Persist);
    assert_eq!(run.step(&mut store, Event::Persisted), Action::Rest);
    assert_eq!(run.phase, Phase::Idle);
    assert_eq!(run.failure, None);
    assert_eq!(
        run.reports,
        vec![
            report("u1", Outcome::Merged),
            report("u2", Outcome::Failed(ProviderError::Extract)),
            report("u3", Outcome::Merged),
        ]
    );
    assert_eq!(fact(&store, "personal_knowledge_u1"), Some("I am one.".to_string()));
    assert_eq!(fact(&store, "personal_knowledge_u2"), None);
    assert_eq!(fact(&store, "personal_knowledge_u3"), Some("I am three.".to_string()));
    assert_eq!(store.learned_urls, vec!["u1", "u3"]);
}

#[test]
fn a_search_that_fails_leaves_an_empty_summary_and_the_run_goes_on() {
    let mut run = run(&["u1"]);
    let mut store = Knowledge::new();
    assert_eq!(past_the_search(&mut run, &mut store), fetch("u1"));
    assert_eq!(run.search_error, Some(ProviderError::Search));
    assert_eq!(fact(&store, "self_understanding"), Some("".to_string()));
    assert_eq!(store.search_history, vec![QUERY]);
    assert!(store.learned_urls.is_empty());
}

#[test]
fn a_search_leads_to_a_page_and_to_a_summary() {
    let mut run = run(&[]);
    let mut store = Knowledge::new();
    run.step(&mut store, Event::SnapshotMissing);
    let reply = search_reply("Alya is proud.", "https://a.example/alya");
    assert_eq!(run.step(&mut store, Event::SearchReplied(reply)), fetch("https://a.example/alya"));
    assert_eq!(run.phase, Phase::Fetching);
    assert_eq!(read_page(&mut run, &mut store, page("She is proud")), normalize("She is proud\n\n"));
    assert_eq!(run.phase, Phase::Normalizing);
    assert_eq!(run.step(&mut store, Event::Normalized(service_reply("I am proud."))), Action::Persist);
    assert_eq!(run.phase, Phase::Merged);
    assert_eq!(run.step(&mut store, Event::Persisted), normalize("Alya is proud.\n\n"));
    assert_eq!(run.phase, Phase::Summarizing);
    assert_eq!(fact(&store, "self_understanding"), None);
    assert_eq!(run.step(&mut store, Event::Normalized(service_reply("I am Alya."))), Action::Persist);
    assert_eq!(run.phase, Phase::Summarized);
    assert_eq!(run.step(&mut store, Event::Persisted), Action::Rest);
    assert_eq!(fact(&store, "self_understanding"), Some("I am Alya.".to_string()));
    assert_eq!(fact(&store, "personal_knowledge_https://a.example/alya"), Some("I am proud.".to_string()));
    assert_eq!(store.search_history, vec![QUERY]);
    assert_eq!(store.learned_urls, vec!["https://a.example/alya"]);
    assert_eq!(run.reports, vec![report("https://a.example/alya", Outcome::Merged)]);
    assert_eq!(run.search_error, None);
}

#[test]
fn a_page_that_was_learned_from_is_not_fetched_again() {
    let mut store = Knowledge::new();
    store.record_page("u1", "known".to_string());
    let facts = store.facts.len();
    let mut run = run(&["u1", "u2", "u1"]);
    assert_eq!(past_the_search(&mut run, &mut store), fetch("u2"));
    assert_eq!(run.reports, vec![report("u1", Outcome::Skipped)]);
    assert_eq!(run.step(&mut store, Event::FetchFailed), Action::Rest);
    assert_eq!(
        run.reports,
        vec![
            report("u1", Outcome::Skipped),
            report("u2", Outcome::Failed(ProviderError::Fetch)),
            report("u1", Outcome::Skipped),
        ]
    );
    assert_eq!(store.learned_urls, vec!["u1"]);
    assert_eq!(store.facts.len(), facts + 1);
    assert_eq!(fact(&store, "personal_knowledge_u1"), Some("known".to_string()));
}

#[test]
fn turning_to_a_learned_page_asks_for_nothing() {
    let mut store = Knowledge::new();
    store.record_page("u1", "known".to_string());
    let mut run = run(&[]);
    run.step(&mut store, Event::SnapshotMissing);
    run.turn_to(&store, "u1".to_string());
    assert_eq!(run.reports, vec![report("u1", Outcome::Skipped)]);
    assert_eq!(run.pending(), normalize(""));
    run.turn_to(&store, "u9".to_string());
    assert_eq!(run.pending(), fetch("u9"));
    assert_eq!(store.learned_urls, vec!["u1"]);
    assert_eq!(store.facts.len(), 1);
}

#[test]
fn a_page_learned_in_this_run_is_skipped_when_it_comes_again() {
    let mut run = run(&["u1", "u1"]);
    let mut store = Knowledge::new();
    assert_eq!(past_the_search(&mut run, &mut store), fetch("u1"));
    read_page(&mut run, &mut store, page("one"));
    run.step(&mut store, Event::Normalized(service_reply("I am one.")));
    assert_eq!(run.step(&mut store, Event::Persisted), Action::Rest);
    assert_eq!(run.reports, vec![report("u1", Outcome::Merged), report("u1", Outcome::Skipped)]);
    assert_eq!(store.learned_urls, vec!["u1"]);
}

#[test]
fn a_search_result_of_pinterest_is_passed_over() {
    let mut run = run(&[]);
    let mut store = Knowledge::new();
    run.step(&mut store, Event::SnapshotMissing);
    let reply = search_reply("Pins.", "https://www.pinterest.com/alya");
    assert_eq!(run.step(&mut store, Event::SearchReplied(reply)), normalize("Pins.\n\n"));
    assert!(run.reports.is_empty());
}

#[test]
fn a_search_without_results_still_asks_for_a_summary() {
    let mut run = run(&[]);
    let mut store = Knowledge::new();
    run.step(&mut store, Event::SnapshotMissing);
    assert_eq!(run.step(&mut store, Event::SearchReplied(object(vec![]))), normalize(""));
    assert_eq!(run.step(&mut store, Event::NormalizeFailed), Action::Persist);
    assert_eq!(run.search_error, Some(ProviderError::Normalize));
    assert_eq!(fact(&store, "self_understanding"), Some("".to_string()));
    assert_eq!(store.search_history, vec![QUERY]);
    assert_eq!(run.step(&mut store, Event::Persisted), Action::Rest);
}

#[test]
fn each_provider_failure_is_reported_for_its_page() {
    let mut run = run(&["u1", "u2", "u3", "u4"]);
    let mut store = Knowledge::new();
    assert_eq!(past_the_search(&mut run, &mut store), fetch("u1"));
    assert_eq!(run.step(&mut store, Event::FetchFailed), fetch("u2"));
    assert_eq!(read_page(&mut run, &mut store, "  ".to_string()), fetch("u3"));
    read_page(&mut run, &mut store, page("three"));
    assert_eq!(run.step(&mut store, Event::NormalizeFailed), fetch("u4"));
    read_page(&mut run, &mut store, page("four"));
    assert_eq!(run.step(&mut store, Event::Normalized(service_reply(""))), Action::Rest);
    assert_eq!(
        run.reports,
        vec![
            report("u1", Outcome::Failed(ProviderError::Fetch)),
            report("u2", Outcome::Failed(ProviderError::Extract)),
            report("u3", Outcome::Failed(ProviderError::Normalize)),
            report("u4", Outcome::Failed(ProviderError::Normalize)),
        ]
    );
    assert!(store.learned_urls.is_empty());
    assert_eq!(store.facts.len(), 1);
    assert_eq!(run.failure, None);
}

#[test]
fn a_store_that_cannot_be_written_ends_the_run() {
    let mut run = run(&["u1", "u2"]);
    let mut store = Knowledge::new();
    assert_eq!(past_the_search(&mut run, &mut store), fetch("u1"));
    read_page(&mut run, &mut store, page("one"));
    assert_eq!(run.step(&mut store, Event::Normalized(service_reply("I am one."))), Action::Persist);
    assert_eq!(run.step(&mut store, Event::PersistFailed), Action::Rest);
    assert_eq!(run.phase, Phase::Idle);
    assert_eq!(run.failure, Some(PersistenceError::Unwritable));
    assert_eq!(run.reports, vec![report("u1", Outcome::Merged)]);
    assert_eq!(run.step(&mut store, Event::Persisted), Action::Rest);
    assert_eq!(run.reports.len(), 1);
}

#[test]
fn a_summary_that_cannot_be_written_ends_the_run() {
    let mut run = run(&["u1"]);
    let mut store = Knowledge::new();
    run.step(&mut store, Event::SnapshotMissing);
    assert_eq!(run.step(&mut store, Event::SearchFailed), Action::Persist);
    assert_eq!(run.step(&mut store, Event::PersistFailed), Action::Rest);
    assert_eq!(run.failure, Some(PersistenceError::Unwritable));
    assert!(run.reports.is_empty());
}

#[test]
fn a_snapshot_is_merged_before_the_search() {
    let mut saved = Knowledge::new();
    saved.record_page("u1", "known".to_string());
    saved.external_url_count = 4;
    let mut run = run(&["u1"]);
    let mut store = Knowledge::new();
    let action = run.step(&mut store, Event::SnapshotFound(saved.save()));
    assert_eq!(action, Action::Search { query: QUERY.to_string(), timeout_secs: 10 });
    assert_eq!(store.learned_urls, vec!["u1"]);
    assert_eq!(store.external_url_count, 4);
    run.step(&mut store, Event::SearchFailed);
    assert_eq!(run.step(&mut store, Event::Persisted), Action::Rest);
    assert_eq!(run.reports, vec![report("u1", Outcome::Skipped)]);
}

#[test]
fn a_malformed_snapshot_ends_the_run() {
    let mut run = run(&["u1"]);
    let mut store = Knowledge::new();
    assert_eq!(run.step(&mut store, Event::SnapshotFound(text("no store"))), Action::Rest);
    assert_eq!(run.failure, Some(PersistenceError::Malformed));
    assert_eq!(run.phase, Phase::Idle);
    let mut other = LearningRun::new("Alya".to_string(), Vec::new());
    assert_eq!(other.step(&mut store, Event::SnapshotMalformed), Action::Rest);
    assert_eq!(other.failure, Some(PersistenceError::Malformed));
    assert_eq!(store.facts.len(), 0);
}

#[test]
fn an_event_that_is_not_awaited_changes_nothing() {
    let mut run = run(&["u1"]);
    let mut store = Knowledge::new();
    assert_eq!(run.step(&mut store, Event::Persisted), Action::LoadSnapshot);
    assert_eq!(run.step(&mut store, Event::PageFetched(page("one"))), Action::LoadSnapshot);
    assert_eq!(run.step(&mut store, extracted("<p>one</p>")), Action::LoadSnapshot);
    assert_eq!(past_the_search(&mut run, &mut store), fetch("u1"));
    assert_eq!(run.step(&mut store, Event::Normalized(service_reply("early"))), fetch("u1"));
    assert_eq!(run.step(&mut store, Event::SnapshotMissing), fetch("u1"));
    assert_eq!(run.step(&mut store, Event::SearchFailed), fetch("u1"));
    assert_eq!(run.step(&mut store, extracted("<p>one</p>")), fetch("u1"));
    assert!(run.reports.is_empty());
    assert_eq!(store.facts.len(), 1);
    assert!(store.learned_urls.is_empty());
}

#[test]
fn the_text_of_a_page_is_extracted_between_fetching_and_rewriting() {
    let mut run = run(&["u1"]);
    let mut store = Knowledge::new();
    assert_eq!(past_the_search(&mut run, &mut store), fetch("u1"));
    let markup = "<html><body><article>Alya <i>Kujou</i></article></body></html>".to_string();
    assert_eq!(
        run.step(&mut store, Event::PageFetched(markup.clone())),
        Action::Extract { page: markup.clone() }
    );
    assert_eq!(run.pending(), Action::Extract { page: markup.clone() });
    assert_eq!(run.step(&mut store, Event::FetchFailed), Action::Extract { page: markup.clone() });
    match extracted(&markup) {
        Event::Extracted(content) => assert_eq!(content, "Alya  Kujou\n\n"),
        other => panic!("{:?}", other),
    }
    assert_eq!(run.step(&mut store, extracted(&markup)), normalize("Alya  Kujou\n\n"));
    assert_eq!(run.content, "Alya  Kujou\n\n");
}

#[test]
fn a_page_that_cannot_be_read_fails_and_the_run_goes_on() {
    let mut run = run(&["u1", "u2"]);
    let mut store = Knowledge::new();
    assert_eq!(past_the_search(&mut run, &mut store), fetch("u1"));
    run.step(&mut store, Event::PageFetched(page("one")));
    assert_eq!(run.step(&mut store, Event::ExtractFailed), fetch("u2"));
    assert_eq!(run.page, "");
    assert_eq!(run.reports, vec![report("u1", Outcome::Failed(ProviderError::Extract))]);
    assert!(store.learned_urls.is_empty());
    assert_eq!(run.step(&mut store, Event::ExtractFailed), fetch("u2"));
    assert_eq!(run.reports.len(), 1);
}

#[test]
fn extracting_a_page_that_is_too_long_fails() {
    let long = "a".repeat(learning_chatbot::extract::MAX_PAGE_CHARS + 1);
    match extracted(&long) {
        Event::ExtractFailed => {}
        other => panic!("{:?}", other),
    }
}
