//! The store on disk: the JSON document that a store is saved as, and how
//! such a document is read back.

use crate::error::PersistenceError;
use crate::json::{
    count_of, lemma_texts_round_trip, member_views, push_member, read_count, read_texts, text_in,
    texts_json, texts_of, texts_to_json, Json, JsonView,
};
use crate::knowledge::{Knowledge, KnowledgeView};
use crate::table::{
    lemma_last_occurrence, lemma_map_of_keys, lemma_map_of_last, lemma_map_of_with_values, map_of,
    with_values, TextMap,
};
use vstd::prelude::*;

verus! {

/// A table as a JSON object of texts.
pub open spec fn table_json(table: Map<Seq<char>, Seq<char>>) -> JsonView {
    JsonView::Object(table.map_values(|text: Seq<char>| JsonView::Text(text)))
}

/// The document that a store is saved as.
pub open spec fn document_of(store: KnowledgeView) -> JsonView {
    JsonView::Object(
        Map::empty().insert("facts"@, table_json(store.facts)).insert(
            "search_history"@,
            texts_json(store.search_history),
        ).insert("learned_urls"@, texts_json(store.learned_urls)).insert(
            "external_url_count"@,
            JsonView::Number(store.external_url_count as nat),
        ).insert("cached_content"@, table_json(store.cached_content)),
    )
}

/// The table that a JSON object of texts holds.
pub open spec fn table_of(json: JsonView) -> Option<Map<Seq<char>, Seq<char>>> {
    match json {
        JsonView::Object(members) => if forall|key: Seq<char>|
            members.contains_key(key) ==> #[trigger] members[key] is Text {
            Some(members.map_values(|value: JsonView| text_in(value)))
        } else {
            None
        },
        _ => None,
    }
}

/// The store that a document holds. A member that the document lacks is
/// empty, or zero; a member of another shape than the store's makes the
/// document unreadable, and so does a document that is no object.
pub open spec fn snapshot_of(document: JsonView) -> Option<KnowledgeView> {
    match document {
        JsonView::Object(members) => {
            let facts = if members.contains_key("facts"@) {
                table_of(members["facts"@])
            } else {
                Some(Map::empty())
            };
            let search_history = if members.contains_key("search_history"@) {
                texts_of(members["search_history"@])
            } else {
                Some(Seq::empty())
            };
            let learned_urls = if members.contains_key("learned_urls"@) {
                texts_of(members["learned_urls"@])
            } else {
                Some(Seq::empty())
            };
            let external_url_count = if members.contains_key("external_url_count"@) {
                count_of(members["external_url_count"@])
            } else {
                Some(0usize)
            };
            let cached_content = if members.contains_key("cached_content"@) {
                table_of(members["cached_content"@])
            } else {
                Some(Map::empty())
            };
            if facts is Some && search_history is Some && learned_urls is Some
                && external_url_count is Some && cached_content is Some {
                Some(
                    KnowledgeView {
                        facts: facts->0,
                        search_history: search_history->0,
                        learned_urls: learned_urls->0,
                        external_url_count: external_url_count->0,
                        cached_content: cached_content->0,
                    },
                )
            } else {
                None
            }
        },
        _ => None,
    }
}

impl KnowledgeView {
    /// This store once the snapshot on disk has been loaded. With no
    /// snapshot there, the store is as it was; a snapshot that holds a
    /// store merges into this one; any other snapshot is an error.
    pub open spec fn loaded(self, snapshot: Option<JsonView>) -> Result<
        KnowledgeView,
        PersistenceError,
    > {
        match snapshot {
            None => Ok(self),
            Some(document) => match snapshot_of(document) {
                Some(read) => Ok(self.merge(read)),
                None => Err(PersistenceError::Malformed),
            },
        }
    }
}

/// What the snapshot on disk means, if there is one.
pub open spec fn snapshot_view(snapshot: Option<&Json>) -> Option<JsonView> {
    match snapshot {
        Some(document) => Some(document@),
        None => None,
    }
}

/// A store that is saved, and loaded into a store that holds nothing, is
/// the store that was saved.
pub proof fn lemma_load_of_saved(store: KnowledgeView)
    ensures
        KnowledgeView::empty().loaded(Some(document_of(store))) == Ok::<
            KnowledgeView,
            PersistenceError,
        >(store),
{
    lemma_round_trip(store);
    assert(KnowledgeView::empty().merge(store) =~= store);
}

/// The names of the members of a saved store differ from each other.
pub proof fn lemma_member_names_differ()
    ensures
        "facts"@ != "search_history"@,
        "facts"@ != "learned_urls"@,
        "facts"@ != "external_url_count"@,
        "facts"@ != "cached_content"@,
        "search_history"@ != "learned_urls"@,
        "search_history"@ != "external_url_count"@,
        "search_history"@ != "cached_content"@,
        "learned_urls"@ != "external_url_count"@,
        "learned_urls"@ != "cached_content"@,
        "external_url_count"@ != "cached_content"@,
{
    reveal_strlit("facts");
    reveal_strlit("search_history");
    reveal_strlit("learned_urls");
    reveal_strlit("external_url_count");
    reveal_strlit("cached_content");
    assert("facts"@.len() == 5);
    assert("search_history"@.len() == 14);
    assert("learned_urls"@.len() == 12);
    assert("external_url_count"@.len() == 18);
    assert("cached_content"@.len() == 14);
    assert("search_history"@[0] != "cached_content"@[0]);
}

/// A store that is saved and read back is the store that was saved.
pub proof fn lemma_round_trip(store: KnowledgeView)
    ensures
        snapshot_of(document_of(store)) == Some(store),
{
    lemma_member_names_differ();
    let members = document_of(store)->Object_0;
    assert(table_of(table_json(store.facts)) == Some(store.facts)) by {
        lemma_table_round_trip(store.facts);
    }
    assert(table_of(table_json(store.cached_content)) == Some(store.cached_content)) by {
        lemma_table_round_trip(store.cached_content);
    }
    assert(texts_of(texts_json(store.search_history)) == Some(store.search_history)) by {
        lemma_texts_round_trip(store.search_history);
    }
    assert(texts_of(texts_json(store.learned_urls)) == Some(store.learned_urls)) by {
        lemma_texts_round_trip(store.learned_urls);
    }
    assert(members["facts"@] == table_json(store.facts));
    assert(members["search_history"@] == texts_json(store.search_history));
    assert(members["learned_urls"@] == texts_json(store.learned_urls));
    assert(members["external_url_count"@] == JsonView::Number(store.external_url_count as nat));
    assert(members["cached_content"@] == table_json(store.cached_content));
    assert(snapshot_of(document_of(store))->0 =~= store);
}

/// A table that is written as JSON and read back is the table that was
/// written.
pub proof fn lemma_table_round_trip(table: Map<Seq<char>, Seq<char>>)
    ensures
        table_of(table_json(table)) == Some(table),
{
    let members = table.map_values(|text: Seq<char>| JsonView::Text(text));
    assert(members.map_values(|value: JsonView| text_in(value)) =~= table);
}

/// Writes a table as a JSON object.
fn table_to_json(table: &TextMap) -> (out: Json)
    ensures
        out@ == table_json(table@),
{
    let ghost listing = table.listing();
    let count = table.len();
    let mut members: Vec<(String, Json)> = Vec::new();
    let mut at: usize = 0;
    while at < count
        invariant
            at <= count,
            count == listing.len(),
            listing == table.listing(),
            members@.len() == at,
            forall|i: int|
                0 <= i < at ==> (#[trigger] members@[i]).0@ == listing[i].0 && members@[i].1@
                    == JsonView::Text(listing[i].1),
        decreases count - at,
    {
        members.push((table.key_at(at).clone(), Json::Text(table.value_at(at).clone())));
        at += 1;
    }
    let out = Json::Object(members);
    proof {
        let write = |text: Seq<char>| JsonView::Text(text);
        assert(out@ == JsonView::Object(map_of(member_views(members@))));
        assert(member_views(members@) =~= with_values(listing, write));
        lemma_map_of_with_values(listing, write);
        assert(map_of(listing).map_values(write) =~= table@.map_values(
            |text: Seq<char>| JsonView::Text(text),
        ));
    }
    out
}

/// Whether a later member than the one at `at` has its name.
fn named_again(members: &Vec<(String, Json)>, at: usize) -> (out: bool)
    requires
        at < members.len(),
    ensures
        out == exists|j: int|
            at < j < members@.len() && (#[trigger] member_views(members@)[j]).0
                == members@[at as int].0@,
{
    let ghost pairs = member_views(members@);
    let mut other: usize = at + 1;
    while other < members.len()
        invariant
            at < other <= members.len(),
            pairs == member_views(members@),
            forall|j: int| at < j < other ==> (#[trigger] pairs[j]).0 != members@[at as int].0@,
        decreases members.len() - other,
    {
        if members[other].0 == members[at].0 {
            proof {
                assert(pairs[other as int].0 == members@[at as int].0@);
            }
            return true;
        }
        other += 1;
    }
    false
}

/// Reads the table of a JSON object of texts.
fn read_table(json: &Json) -> (out: Option<TextMap>)
    ensures
        match out {
            Some(table) => table_of(json@) == Some(table@),
            None => table_of(json@) is None,
        },
{
    match json {
        Json::Object(members) => {
            let ghost pairs = member_views(members@);
            let mut table = TextMap::new();
            let mut at: usize = 0;
            while at < members.len()
                invariant
                    at <= members.len(),
                    pairs == member_views(members@),
                    json@ == JsonView::Object(map_of(pairs)),
                    forall|i: int|
                        0 <= i < at && last_of_name(pairs, i) ==> (#[trigger] pairs[i]).1 is Text
                            && table@.contains_key(pairs[i].0) && table@[pairs[i].0] == text_in(
                            pairs[i].1,
                        ),
                    forall|key: Seq<char>| #[trigger]
                        table@.contains_key(key) ==> exists|i: int|
                            0 <= i < at && last_of_name(pairs, i) && (#[trigger] pairs[i]).0
                                == key,
                decreases members.len() - at,
            {
                let ghost before = table@;
                proof {
                    assert(pairs[at as int] == (members@[at as int].0@, members@[at as int].1@));
                }
                if !named_again(members, at) {
                    assert(last_of_name(pairs, at as int));
                    match &members[at].1 {
                        Json::Text(text) => {
                            table.insert(members[at].0.clone(), text.clone());
                            proof {
                                assert forall|i: int|
                                    0 <= i < at + 1 && last_of_name(
                                        pairs,
                                        i,
                                    ) implies (#[trigger] pairs[i]).1 is Text
                                    && table@.contains_key(pairs[i].0) && table@[pairs[i].0]
                                    == text_in(pairs[i].1) by {
                                    if i < at {
                                        assert(pairs[at as int].0 != pairs[i].0);
                                    }
                                }
                                assert forall|key: Seq<char>| #[trigger]
                                    table@.contains_key(key) implies exists|i: int|
                                    0 <= i < at + 1 && last_of_name(pairs, i) && (
                                    #[trigger] pairs[i]).0 == key by {
                                    if key == pairs[at as int].0 {
                                        assert(last_of_name(pairs, at as int));
                                    } else {
                                        assert(before.contains_key(key));
                                    }
                                }
                            }
                        },
                        _ => {
                            proof {
                                lemma_map_of_last(pairs, at as int);
                                assert(!(map_of(pairs)[pairs[at as int].0] is Text));
                            }
                            return None;
                        },
                    }
                }
                at += 1;
            }
            proof {
                let read = |value: JsonView| text_in(value);
                let whole = map_of(pairs);
                assert forall|key: Seq<char>| #[trigger]
                    whole.contains_key(key) implies whole[key] is Text && table@.contains_key(key)
                    && table@[key] == text_in(whole[key]) by {
                    lemma_map_of_keys(pairs, key);
                    let i = lemma_last_occurrence(pairs, key);
                    lemma_map_of_last(pairs, i);
                    assert(last_of_name(pairs, i));
                }
                assert forall|key: Seq<char>| table@.contains_key(key) implies whole.contains_key(
                    key,
                ) by {
                    let i = choose|i: int|
                        0 <= i < at && last_of_name(pairs, i) && (#[trigger] pairs[i]).0 == key;
                    lemma_map_of_last(pairs, i);
                }
                assert(table@ =~= whole.map_values(read));
            }
            Some(table)
        },
        _ => None,
    }
}

/// Whether no later member than the one at `at` has its name.
spec fn last_of_name(pairs: Seq<(Seq<char>, JsonView)>, at: int) -> bool {
    forall|j: int| at < j < pairs.len() ==> (#[trigger] pairs[j]).0 != pairs[at].0
}

impl Knowledge {
    /// The document that this store is saved as.
    pub fn save(&self) -> (document: Json)
        ensures
            document@ == document_of(self@),
    {
        let mut members: Vec<(String, Json)> = Vec::new();
        proof {
            assert(member_views(members@) =~= Seq::empty());
            assert(map_of(member_views(members@)) =~= Map::empty());
        }
        push_member(&mut members, "facts", table_to_json(&self.facts));
        push_member(&mut members, "search_history", texts_to_json(&self.search_history));
        push_member(&mut members, "learned_urls", texts_to_json(&self.learned_urls));
        push_member(
            &mut members,
            "external_url_count",
            Json::Number(self.external_url_count as u64),
        );
        push_member(&mut members, "cached_content", table_to_json(&self.cached_content));
        let document = Json::Object(members);
        proof {
            assert(document@ == JsonView::Object(map_of(member_views(members@))));
        }
        document
    }

    /// The store that `document` holds.
    pub fn restore(document: &Json) -> (out: Result<Knowledge, PersistenceError>)
        ensures
            match out {
                Ok(store) => snapshot_of(document@) == Some(store@),
                Err(error) => error == PersistenceError::Malformed && snapshot_of(document@)
                    is None,
            },
    {
        if !document.is_object() {
            return Err(PersistenceError::Malformed);
        }
        let facts = match document.member("facts") {
            Some(written) => match read_table(written) {
                Some(table) => table,
                None => { return Err(PersistenceError::Malformed); },
            },
            None => TextMap::new(),
        };
        let search_history = match document.member("search_history") {
            Some(written) => match read_texts(written) {
                Some(texts) => texts,
                None => { return Err(PersistenceError::Malformed); },
            },
            None => Vec::new(),
        };
        let learned_urls = match document.member("learned_urls") {
            Some(written) => match read_texts(written) {
                Some(texts) => texts,
                None => { return Err(PersistenceError::Malformed); },
            },
            None => Vec::new(),
        };
        let external_url_count = match document.member("external_url_count") {
            Some(written) => match read_count(written) {
                Some(count) => count,
                None => { return Err(PersistenceError::Malformed); },
            },
            None => 0,
        };
        let cached_content = match document.member("cached_content") {
            Some(written) => match read_table(written) {
                Some(table) => table,
                None => { return Err(PersistenceError::Malformed); },
            },
            None => TextMap::new(),
        };
        let store = Knowledge {
            facts,
            search_history,
            learned_urls,
            external_url_count,
            cached_content,
        };
        proof {
            assert(search_history.deep_view() =~= snapshot_of(document@)->0.search_history);
            assert(learned_urls.deep_view() =~= snapshot_of(document@)->0.learned_urls);
            assert(store@ =~= snapshot_of(document@)->0);
        }
        Ok(store)
    }

    /// Loads the snapshot on disk, if there is one, into this store. A
    /// snapshot that holds no store is an error, and leaves this store as
    /// it was.
    pub fn load(&mut self, snapshot: Option<&Json>) -> (out: Result<(), PersistenceError>)
        ensures
            match old(self)@.loaded(snapshot_view(snapshot)) {
                Ok(after) => out is Ok && final(self)@ == after,
                Err(error) => out == Err::<(), PersistenceError>(error) && final(self)@ == old(
                    self,
                )@,
            },
    {
        match snapshot {
            None => Ok(()),
            Some(document) => match Knowledge::restore(document) {
                Ok(read) => {
                    self.merge(read);
                    Ok(())
                },
                Err(error) => Err(error),
            },
        }
    }
}

} // verus!
