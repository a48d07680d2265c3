//! The knowledge store: what the persona has learned, and how two stores
//! merge.

use crate::table::TextMap;
use crate::text::{copy_texts, decimal, decimal_text};
use vstd::prelude::*;
use vstd::string::StringExecFns;

verus! {

/// Everything the persona has learned.
#[derive(Debug)]
pub struct Knowledge {
    /// Learned text by where it came from.
    pub facts: TextMap,
    /// The queries issued so far, oldest first.
    pub search_history: Vec<String>,
    /// The pages learned from so far, oldest first.
    pub learned_urls: Vec<String>,
    /// The count of pages from elsewhere, as the last snapshot gave it.
    pub external_url_count: usize,
    /// Page text as it was before it was rewritten, by page.
    pub cached_content: TextMap,
}

/// What a `Knowledge` means.
#[verifier::ext_equal]
pub struct KnowledgeView {
    pub facts: Map<Seq<char>, Seq<char>>,
    pub search_history: Seq<Seq<char>>,
    pub learned_urls: Seq<Seq<char>>,
    pub external_url_count: usize,
    pub cached_content: Map<Seq<char>, Seq<char>>,
}

impl KnowledgeView {
    /// The store that holds nothing.
    pub open spec fn empty() -> KnowledgeView {
        KnowledgeView {
            facts: Map::empty(),
            search_history: Seq::empty(),
            learned_urls: Seq::empty(),
            external_url_count: 0,
            cached_content: Map::empty(),
        }
    }

    /// This store after `incoming` has merged into it: the tables are
    /// united, and `incoming` wins where both have a key; its histories
    /// follow this store's; its count replaces this store's.
    pub open spec fn merge(self, incoming: KnowledgeView) -> KnowledgeView {
        KnowledgeView {
            facts: self.facts.union_prefer_right(incoming.facts),
            search_history: self.search_history + incoming.search_history,
            learned_urls: self.learned_urls + incoming.learned_urls,
            external_url_count: incoming.external_url_count,
            cached_content: self.cached_content.union_prefer_right(incoming.cached_content),
        }
    }

    /// Whether `url` has been learned from.
    pub open spec fn has_learned(self, url: Seq<char>) -> bool {
        self.learned_urls.contains(url)
    }

    /// This store once the page `url` has been learned from: `text` stands
    /// under the page's key, and the page is the latest learned.
    pub open spec fn with_page(self, url: Seq<char>, text: Seq<char>) -> KnowledgeView {
        KnowledgeView {
            facts: self.facts.insert(page_key(url), text),
            learned_urls: self.learned_urls.push(url),
            ..self
        }
    }

    /// This store once a search has been made: `summary` is what the
    /// persona understands of itself, and `query` is the latest query.
    pub open spec fn with_search(self, query: Seq<char>, summary: Seq<char>) -> KnowledgeView {
        KnowledgeView {
            facts: self.facts.insert(self_key(), summary),
            search_history: self.search_history.push(query),
            ..self
        }
    }

    /// This store once it has been trained with `text` at the time
    /// `timestamp`.
    pub open spec fn with_training(self, timestamp: int, text: Seq<char>) -> KnowledgeView {
        KnowledgeView { facts: self.facts.insert(training_key(timestamp), text), ..self }
    }
}

/// The key of what was learned from the page `url`.
pub open spec fn page_key(url: Seq<char>) -> Seq<char> {
    "personal_knowledge_"@ + url
}

/// The key of what the persona understands of itself.
pub open spec fn self_key() -> Seq<char> {
    "self_understanding"@
}

/// The key of what the persona was trained with at the time `timestamp`,
/// in seconds since 1970.
pub open spec fn training_key(timestamp: int) -> Seq<char> {
    "trained_knowledge_"@ + decimal(timestamp)
}

impl View for Knowledge {
    type V = KnowledgeView;

    open spec fn view(&self) -> KnowledgeView {
        KnowledgeView {
            facts: self.facts@,
            search_history: self.search_history.deep_view(),
            learned_urls: self.learned_urls.deep_view(),
            external_url_count: self.external_url_count,
            cached_content: self.cached_content@,
        }
    }
}

/// Moves the texts of `incoming` behind those of `texts`.
fn append_texts(texts: &mut Vec<String>, incoming: Vec<String>)
    ensures
        final(texts).deep_view() == old(texts).deep_view() + incoming.deep_view(),
{
    let ghost added = incoming.deep_view();
    let mut incoming = incoming;
    texts.append(&mut incoming);
    proof {
        assert(texts.deep_view() =~= old(texts).deep_view() + added);
    }
}

impl Knowledge {
    /// The store that holds nothing.
    pub fn new() -> (out: Self)
        ensures
            out@ == KnowledgeView::empty(),
    {
        let out = Knowledge {
            facts: TextMap::new(),
            search_history: Vec::new(),
            learned_urls: Vec::new(),
            external_url_count: 0,
            cached_content: TextMap::new(),
        };
        proof {
            assert(out@ =~= KnowledgeView::empty());
        }
        out
    }

    /// Whether `url` has been learned from.
    pub fn has_learned(&self, url: &str) -> (out: bool)
        ensures
            out == self@.has_learned(url@),
    {
        let wanted = String::from_str(url);
        let ghost urls = self.learned_urls.deep_view();
        let mut at: usize = 0;
        while at < self.learned_urls.len()
            invariant
                at <= self.learned_urls.len(),
                wanted@ == url@,
                urls == self.learned_urls.deep_view(),
                forall|i: int| 0 <= i < at ==> urls[i] != url@,
            decreases self.learned_urls.len() - at,
        {
            if self.learned_urls[at] == wanted {
                proof {
                    assert(urls[at as int] == url@);
                }
                return true;
            }
            at += 1;
        }
        false
    }

    /// Takes in what was learned from the page `url`.
    pub fn record_page(&mut self, url: &str, text: String)
        ensures
            final(self)@ == old(self)@.with_page(url@, text@),
    {
        let mut key = String::from_str("personal_knowledge_");
        key.append(url);
        self.facts.insert(key, text);
        let ghost before = self.learned_urls.deep_view();
        self.learned_urls.push(String::from_str(url));
        proof {
            assert(self.learned_urls.deep_view() =~= before.push(url@));
        }
    }

    /// Takes in what a search for `query` gave.
    pub fn record_search(&mut self, query: String, summary: String)
        ensures
            final(self)@ == old(self)@.with_search(query@, summary@),
    {
        self.facts.insert(String::from_str("self_understanding"), summary);
        let ghost before = self.search_history.deep_view();
        self.search_history.push(query);
        proof {
            assert(self.search_history.deep_view() =~= before.push(query@));
        }
    }

    /// Takes in the `text` that the persona was trained with at the time
    /// `timestamp`.
    pub fn record_training(&mut self, timestamp: i64, text: String)
        ensures
            final(self)@ == old(self)@.with_training(timestamp as int, text@),
    {
        let mut key = String::from_str("trained_knowledge_");
        key.append(decimal_text(timestamp).as_str());
        self.facts.insert(key, text);
    }

    /// Merges `other` into this store.
    pub fn merge(&mut self, other: Knowledge)
        ensures
            final(self)@ == old(self)@.merge(other@),
    {
        self.facts.extend(other.facts);
        append_texts(&mut self.search_history, other.search_history);
        append_texts(&mut self.learned_urls, other.learned_urls);
        self.cached_content.extend(other.cached_content);
        self.external_url_count = other.external_url_count;
    }
}

impl Clone for Knowledge {
    /// A store that holds the same.
    fn clone(&self) -> (out: Knowledge)
        ensures
            out@ == self@,
    {
        Knowledge {
            facts: self.facts.clone(),
            search_history: copy_texts(&self.search_history),
            learned_urls: copy_texts(&self.learned_urls),
            external_url_count: self.external_url_count,
            cached_content: self.cached_content.clone(),
        }
    }
}

/// The texts that stand in `front + back` are those that stand in `front`
/// or in `back`.
proof fn lemma_texts_of_both(front: Seq<Seq<char>>, back: Seq<Seq<char>>)
    ensures
        (front + back).to_set() == front.to_set().union(back.to_set()),
{
    let both = front + back;
    assert forall|text: Seq<char>| both.contains(text) <==> front.contains(text) || back.contains(
        text,
    ) by {
        if both.contains(text) {
            let i = choose|i: int| 0 <= i < both.len() && both[i] == text;
            if i < front.len() {
                assert(front[i] == text);
            } else {
                assert(back[i - front.len()] == text);
            }
        }
        if front.contains(text) {
            let i = choose|i: int| 0 <= i < front.len() && front[i] == text;
            assert(both[i] == text);
        }
        if back.contains(text) {
            let i = choose|i: int| 0 <= i < back.len() && back[i] == text;
            assert(both[front.len() + i] == text);
        }
    }
    assert(both.to_set() =~= front.to_set().union(back.to_set()));
}

/// Merging a store into itself, or into an equal copy, changes neither of
/// its tables, nor which pages it has learned from, nor which queries it
/// has issued, nor its count.
pub proof fn lemma_merge_into_itself(store: KnowledgeView)
    ensures
        store.merge(store).facts == store.facts,
        store.merge(store).cached_content == store.cached_content,
        store.merge(store).learned_urls.to_set() == store.learned_urls.to_set(),
        store.merge(store).search_history.to_set() == store.search_history.to_set(),
        store.merge(store).external_url_count == store.external_url_count,
{
    lemma_texts_of_both(store.learned_urls, store.learned_urls);
    lemma_texts_of_both(store.search_history, store.search_history);
    assert(store.merge(store).facts =~= store.facts);
    assert(store.merge(store).cached_content =~= store.cached_content);
    assert(store.merge(store).learned_urls.to_set() =~= store.learned_urls.to_set());
    assert(store.merge(store).search_history.to_set() =~= store.search_history.to_set());
}

/// Once a snapshot has merged into a store, merging the same snapshot
/// again changes neither of the tables, nor which pages and queries the
/// histories hold, and the count stays the snapshot's.
pub proof fn lemma_merge_again(store: KnowledgeView, snapshot: KnowledgeView)
    ensures
        store.merge(snapshot).merge(snapshot).facts == store.merge(snapshot).facts,
        store.merge(snapshot).merge(snapshot).cached_content == store.merge(
            snapshot,
        ).cached_content,
        store.merge(snapshot).merge(snapshot).learned_urls.to_set() == store.merge(
            snapshot,
        ).learned_urls.to_set(),
        store.merge(snapshot).merge(snapshot).search_history.to_set() == store.merge(
            snapshot,
        ).search_history.to_set(),
        store.merge(snapshot).merge(snapshot).external_url_count == snapshot.external_url_count,
        store.merge(snapshot).external_url_count == snapshot.external_url_count,
{
    let once = store.merge(snapshot);
    let twice = once.merge(snapshot);
    lemma_texts_of_both(store.learned_urls, snapshot.learned_urls);
    lemma_texts_of_both(once.learned_urls, snapshot.learned_urls);
    lemma_texts_of_both(store.search_history, snapshot.search_history);
    lemma_texts_of_both(once.search_history, snapshot.search_history);
    assert(twice.facts =~= once.facts);
    assert(twice.cached_content =~= once.cached_content);
    assert(twice.learned_urls.to_set() =~= once.learned_urls.to_set());
    assert(twice.search_history.to_set() =~= once.search_history.to_set());
}

/// A store that merges into the empty store comes out as it went in.
pub proof fn lemma_merge_into_empty(store: KnowledgeView)
    ensures
        KnowledgeView::empty().merge(store) == store,
{
    assert(KnowledgeView::empty().merge(store) =~= store);
}

} // verus!
