//! JSON documents as far as this library reads and writes them.

use crate::table::{lemma_map_of_keys, lemma_map_of_last, map_of};
use vstd::prelude::*;
use vstd::string::StringExecFns;

verus! {

/// A JSON document, reduced to what the library reads and writes: text,
/// whole numbers, lists and objects. Every other leaf (null, a truth
/// value, a number that is negative, has a fraction or does not fit) is
/// `Other`.
#[derive(Debug)]
pub enum Json {
    Other,
    Number(u64),
    Text(String),
    List(Vec<Json>),
    /// The members in the order in which they are written. Where a key is
    /// written twice, the later member is the one that counts.
    Object(Vec<(String, Json)>),
}

/// What a `Json` means.
pub enum JsonView {
    Other,
    Number(nat),
    Text(Seq<char>),
    List(Seq<JsonView>),
    Object(Map<Seq<char>, JsonView>),
}

/// What the items of a list mean, one by one.
pub open spec fn item_views(items: Seq<Json>) -> Seq<JsonView>
    decreases items,
{
    Seq::new(
        items.len(),
        |i: int|
            if 0 <= i < items.len() {
                items[i]@
            } else {
                JsonView::Other
            },
    )
}

/// What the members of an object mean, one by one.
pub open spec fn member_views(members: Seq<(String, Json)>) -> Seq<(Seq<char>, JsonView)>
    decreases members,
{
    Seq::new(
        members.len(),
        |i: int|
            if 0 <= i < members.len() {
                (members[i].0@, members[i].1@)
            } else {
                (Seq::empty(), JsonView::Other)
            },
    )
}

impl View for Json {
    type V = JsonView;

    open spec fn view(&self) -> JsonView
        decreases self,
    {
        match self {
            Json::Other => JsonView::Other,
            Json::Number(n) => JsonView::Number(*n as nat),
            Json::Text(text) => JsonView::Text(text@),
            Json::List(items) => JsonView::List(item_views(items@)),
            Json::Object(members) => JsonView::Object(map_of(member_views(members@))),
        }
    }
}

impl JsonView {
    /// What stands under `key`, where this is an object that has the key.
    pub open spec fn member(self, key: Seq<char>) -> Option<JsonView> {
        match self {
            JsonView::Object(members) => if members.contains_key(key) {
                Some(members[key])
            } else {
                None
            },
            _ => None,
        }
    }

    /// The item at `at`, where this is a list that is long enough.
    pub open spec fn item(self, at: int) -> Option<JsonView> {
        match self {
            JsonView::List(items) => if 0 <= at < items.len() {
                Some(items[at])
            } else {
                None
            },
            _ => None,
        }
    }

    /// The text, where this is text.
    pub open spec fn text(self) -> Option<Seq<char>> {
        match self {
            JsonView::Text(text) => Some(text),
            _ => None,
        }
    }

    /// The number, where this is a whole number.
    pub open spec fn number(self) -> Option<nat> {
        match self {
            JsonView::Number(n) => Some(n),
            _ => None,
        }
    }

    /// The text that stands under `key`, where this is an object that has
    /// a text there.
    pub open spec fn text_under(self, key: Seq<char>) -> Option<Seq<char>> {
        match self.member(key) {
            Some(value) => value.text(),
            None => None,
        }
    }

    /// The texts that stand under `key`, where this is an object that has
    /// a list of texts there.
    pub open spec fn texts_under(self, key: Seq<char>) -> Option<Seq<Seq<char>>> {
        match self.member(key) {
            Some(value) => texts_of(value),
            None => None,
        }
    }

    /// The count that stands under `key`, where this is an object that has
    /// one there.
    pub open spec fn count_under(self, key: Seq<char>) -> Option<usize> {
        match self.member(key) {
            Some(value) => count_of(value),
            None => None,
        }
    }
}

impl Json {
    /// What stands under `key`, where this is an object that has the key.
    pub fn member(&self, key: &str) -> (found: Option<&Json>)
        ensures
            match found {
                Some(value) => self@.member(key@) == Some(value@),
                None => self@.member(key@) is None,
            },
    {
        match self {
            Json::Object(members) => {
                let wanted = String::from_str(key);
                let ghost pairs = member_views(members@);
                let mut left: usize = members.len();
                while left > 0
                    invariant
                        left <= members@.len(),
                        wanted@ == key@,
                        pairs == member_views(members@),
                        self@ == JsonView::Object(map_of(pairs)),
                        forall|j: int| left <= j < pairs.len() ==> (#[trigger] pairs[j]).0 != key@,
                    decreases left,
                {
                    left -= 1;
                    if members[left].0 == wanted {
                        proof {
                            lemma_map_of_last(pairs, left as int);
                            assert(pairs[left as int] == (key@, members@[left as int].1@));
                        }
                        return Some(&members[left].1);
                    }
                }
                proof {
                    lemma_map_of_keys(pairs, key@);
                }
                None
            },
            _ => None,
        }
    }

    /// The item at `at`, where this is a list that is long enough.
    pub fn item(&self, at: usize) -> (found: Option<&Json>)
        ensures
            match found {
                Some(value) => self@.item(at as int) == Some(value@),
                None => self@.item(at as int) is None,
            },
    {
        match self {
            Json::List(items) => if at < items.len() {
                proof {
                    assert(self@ == JsonView::List(item_views(items@)));
                    assert(item_views(items@)[at as int] == items@[at as int]@);
                }
                Some(&items[at])
            } else {
                None
            },
            _ => None,
        }
    }

    /// The text, where this is text.
    pub fn as_text(&self) -> (found: Option<&String>)
        ensures
            match found {
                Some(text) => self@.text() == Some(text@),
                None => self@.text() is None,
            },
    {
        match self {
            Json::Text(text) => Some(text),
            _ => None,
        }
    }

    /// The number, where this is a whole number.
    pub fn as_number(&self) -> (found: Option<u64>)
        ensures
            match found {
                Some(n) => self@.number() == Some(n as nat),
                None => self@.number() is None,
            },
    {
        match self {
            Json::Number(n) => Some(*n),
            _ => None,
        }
    }

    /// The text that stands under `key`, where this is an object that has
    /// a text there.
    pub fn text_under(&self, key: &str) -> (found: Option<String>)
        ensures
            found.deep_view() == self@.text_under(key@),
    {
        match self.member(key) {
            Some(value) => match value.as_text() {
                Some(text) => Some(text.clone()),
                None => None,
            },
            None => None,
        }
    }

    /// The texts that stand under `key`, where this is an object that has
    /// a list of texts there.
    pub fn texts_under(&self, key: &str) -> (found: Option<Vec<String>>)
        ensures
            found.deep_view() == self@.texts_under(key@),
    {
        match self.member(key) {
            Some(value) => read_texts(value),
            None => None,
        }
    }

    /// The count that stands under `key`, where this is an object that has
    /// one there.
    pub fn count_under(&self, key: &str) -> (found: Option<usize>)
        ensures
            found == self@.count_under(key@),
    {
        match self.member(key) {
            Some(value) => read_count(value),
            None => None,
        }
    }

    /// Whether this is an object.
    pub fn is_object(&self) -> (out: bool)
        ensures
            out == (self@ is Object),
    {
        match self {
            Json::Object(_) => true,
            _ => false,
        }
    }
}

/// The text that a JSON text holds; the empty text for anything else.
pub open spec fn text_in(json: JsonView) -> Seq<char> {
    match json {
        JsonView::Text(text) => text,
        _ => Seq::empty(),
    }
}

/// A run of texts as a JSON list of texts.
pub open spec fn texts_json(texts: Seq<Seq<char>>) -> JsonView {
    JsonView::List(texts.map_values(|text: Seq<char>| JsonView::Text(text)))
}

/// The texts that a JSON list of texts holds.
pub open spec fn texts_of(json: JsonView) -> Option<Seq<Seq<char>>> {
    match json {
        JsonView::List(items) => if forall|i: int|
            0 <= i < items.len() ==> #[trigger] items[i] is Text {
            Some(items.map_values(|value: JsonView| text_in(value)))
        } else {
            None
        },
        _ => None,
    }
}

/// The count that a JSON number holds.
pub open spec fn count_of(json: JsonView) -> Option<usize> {
    match json {
        JsonView::Number(n) => if n <= usize::MAX {
            Some(n as usize)
        } else {
            None
        },
        _ => None,
    }
}

/// Texts that are written as JSON and read back are the texts that were
/// written.
pub proof fn lemma_texts_round_trip(texts: Seq<Seq<char>>)
    ensures
        texts_of(texts_json(texts)) == Some(texts),
{
    let items = texts.map_values(|text: Seq<char>| JsonView::Text(text));
    assert(items.map_values(|value: JsonView| text_in(value)) =~= texts);
}

/// Writes texts as a JSON list.
pub fn texts_to_json(texts: &Vec<String>) -> (out: Json)
    ensures
        out@ == texts_json(texts.deep_view()),
{
    let mut items: Vec<Json> = Vec::new();
    let mut at: usize = 0;
    while at < texts.len()
        invariant
            at <= texts.len(),
            items@.len() == at,
            forall|i: int| 0 <= i < at ==> (#[trigger] items@[i])@ == JsonView::Text(texts@[i]@),
        decreases texts.len() - at,
    {
        items.push(Json::Text(texts[at].clone()));
        at += 1;
    }
    let out = Json::List(items);
    proof {
        assert(out@ == JsonView::List(item_views(items@)));
        assert(item_views(items@) =~= texts.deep_view().map_values(
            |text: Seq<char>| JsonView::Text(text),
        ));
    }
    out
}

/// An object with one member more.
pub fn push_member(members: &mut Vec<(String, Json)>, name: &str, value: Json)
    ensures
        map_of(member_views(final(members)@)) == map_of(member_views(old(members)@)).insert(
            name@,
            value@,
        ),
{
    members.push((String::from_str(name), value));
    proof {
        let after = member_views(members@);
        assert(after.drop_last() =~= member_views(old(members)@));
        assert(after.last() == (name@, value@));
    }
}

/// Reads the texts of a JSON list.
pub fn read_texts(json: &Json) -> (out: Option<Vec<String>>)
    ensures
        out.deep_view() == texts_of(json@),
{
    match json {
        Json::List(items) => {
            let ghost views = item_views(items@);
            let mut texts: Vec<String> = Vec::new();
            let mut at: usize = 0;
            while at < items.len()
                invariant
                    at <= items.len(),
                    views == item_views(items@),
                    json@ == JsonView::List(views),
                    texts@.len() == at,
                    forall|i: int| 0 <= i < at ==> (#[trigger] views[i]) is Text,
                    forall|i: int| 0 <= i < at ==> (#[trigger] texts@[i])@ == text_in(views[i]),
                decreases items.len() - at,
            {
                proof {
                    assert(views[at as int] == items@[at as int]@);
                }
                match &items[at] {
                    Json::Text(text) => {
                        texts.push(text.clone());
                    },
                    _ => {
                        proof {
                            assert(!(views[at as int] is Text));
                        }
                        return None;
                    },
                }
                at += 1;
            }
            proof {
                assert(texts.deep_view() =~= views.map_values(|value: JsonView| text_in(value)));
            }
            Some(texts)
        },
        _ => None,
    }
}

/// Reads the count of a JSON number.
pub fn read_count(json: &Json) -> (out: Option<usize>)
    ensures
        out == count_of(json@),
{
    match json {
        Json::Number(n) => if *n <= usize::MAX as u64 {
            Some(*n as usize)
        } else {
            None
        },
        _ => None,
    }
}

} // verus!
