//! A table from text keys to text values, the shape of the fact table and
//! of the cached page content.

use vstd::prelude::*;

verus! {

/// A key with its value, as mathematical text.
pub type Pair = (Seq<char>, Seq<char>);

/// The map that a listing of pairs stands for: a later pair overrides an
/// earlier one with the same key.
pub open spec fn map_of<V>(pairs: Seq<(Seq<char>, V)>) -> Map<Seq<char>, V>
    decreases pairs.len(),
{
    if pairs.len() == 0 {
        Map::empty()
    } else {
        map_of(pairs.drop_last()).insert(pairs.last().0, pairs.last().1)
    }
}

/// No key stands twice in `pairs`.
pub open spec fn keys_distinct<V>(pairs: Seq<(Seq<char>, V)>) -> bool {
    forall|i: int, j: int| 0 <= i < j < pairs.len() ==> pairs[i].0 != pairs[j].0
}

/// Every pair before position `upto` has another key than `key`.
pub open spec fn absent_before<V>(pairs: Seq<(Seq<char>, V)>, key: Seq<char>, upto: int) -> bool {
    forall|i: int| 0 <= i < upto ==> (#[trigger] pairs[i]).0 != key
}

/// The keys of `map_of(pairs)` are the keys that stand in `pairs`.
pub proof fn lemma_map_of_keys<V>(pairs: Seq<(Seq<char>, V)>, key: Seq<char>)
    ensures
        map_of(pairs).contains_key(key) <==> !absent_before(pairs, key, pairs.len() as int),
    decreases pairs.len(),
{
    if pairs.len() > 0 {
        let front = pairs.drop_last();
        lemma_map_of_keys(front, key);
        if pairs.last().0 == key {
            assert(pairs[pairs.len() - 1].0 == key);
        } else if !absent_before(front, key, front.len() as int) {
            let i = choose|i: int| 0 <= i < front.len() && (#[trigger] front[i]).0 == key;
            assert(pairs[i].0 == key);
        } else {
            assert forall|i: int| 0 <= i < pairs.len() implies (#[trigger] pairs[i]).0 != key by {
                if i < front.len() {
                    assert(front[i].0 != key);
                }
            }
        }
    }
}

/// A pair whose key no later pair has is the one that its key leads to.
pub proof fn lemma_map_of_last<V>(pairs: Seq<(Seq<char>, V)>, at: int)
    requires
        0 <= at < pairs.len(),
        forall|j: int| at < j < pairs.len() ==> (#[trigger] pairs[j]).0 != pairs[at].0,
    ensures
        map_of(pairs).contains_key(pairs[at].0),
        map_of(pairs)[pairs[at].0] == pairs[at].1,
    decreases pairs.len(),
{
    let front = pairs.drop_last();
    if at < pairs.len() - 1 {
        assert forall|j: int| at < j < front.len() implies (#[trigger] front[j]).0
            != front[at].0 by {
            assert(pairs[j].0 != pairs[at].0);
        }
        lemma_map_of_last(front, at);
        assert(pairs[pairs.len() - 1].0 != pairs[at].0);
    }
}

/// The place of the last pair with the key `key`, where there is one.
pub proof fn lemma_last_occurrence<V>(pairs: Seq<(Seq<char>, V)>, key: Seq<char>) -> (at: int)
    requires
        !absent_before(pairs, key, pairs.len() as int),
    ensures
        0 <= at < pairs.len(),
        pairs[at].0 == key,
        forall|j: int| at < j < pairs.len() ==> (#[trigger] pairs[j]).0 != key,
    decreases pairs.len(),
{
    if pairs.last().0 == key {
        pairs.len() - 1
    } else {
        let front = pairs.drop_last();
        let i = choose|i: int| 0 <= i < pairs.len() && (#[trigger] pairs[i]).0 == key;
        assert(front[i].0 == key);
        let at = lemma_last_occurrence(front, key);
        assert forall|j: int| at < j < pairs.len() implies (#[trigger] pairs[j]).0 != key by {
            if j < front.len() {
                assert(front[j].0 != key);
            }
        }
        at
    }
}

/// The pairs of `pairs` with `change` applied to each value.
pub open spec fn with_values<V, W>(pairs: Seq<(Seq<char>, V)>, change: spec_fn(V) -> W) -> Seq<
    (Seq<char>, W),
> {
    pairs.map_values(|pair: (Seq<char>, V)| (pair.0, change(pair.1)))
}

/// To change each value of a listing and to change each value of the map
/// that it stands for comes to the same.
pub proof fn lemma_map_of_with_values<V, W>(pairs: Seq<(Seq<char>, V)>, change: spec_fn(V) -> W)
    ensures
        map_of(with_values(pairs, change)) == map_of(pairs).map_values(change),
    decreases pairs.len(),
{
    let changed = with_values(pairs, change);
    if pairs.len() == 0 {
        assert(map_of(changed) =~= map_of(pairs).map_values(change));
    } else {
        lemma_map_of_with_values(pairs.drop_last(), change);
        assert(changed.drop_last() =~= with_values(pairs.drop_last(), change));
        assert(map_of(changed) =~= map_of(pairs).map_values(change));
    }
}

/// Where no key stands twice, each pair's key leads to that pair's value.
pub proof fn lemma_map_of_value<V>(pairs: Seq<(Seq<char>, V)>, at: int)
    requires
        keys_distinct(pairs),
        0 <= at < pairs.len(),
    ensures
        map_of(pairs).contains_key(pairs[at].0),
        map_of(pairs)[pairs[at].0] == pairs[at].1,
{
    assert forall|j: int| at < j < pairs.len() implies (#[trigger] pairs[j]).0
        != pairs[at].0 by {
        assert(pairs[at].0 != pairs[j].0);
    }
    lemma_map_of_last(pairs, at);
}

/// Where no key stands twice, a new value in place of an old one is an
/// insertion into the map.
pub proof fn lemma_map_of_update<V>(pairs: Seq<(Seq<char>, V)>, at: int, value: V)
    requires
        keys_distinct(pairs),
        0 <= at < pairs.len(),
    ensures
        keys_distinct(pairs.update(at, (pairs[at].0, value))),
        map_of(pairs.update(at, (pairs[at].0, value))) == map_of(pairs).insert(
            pairs[at].0,
            value,
        ),
    decreases pairs.len(),
{
    let key = pairs[at].0;
    let changed = pairs.update(at, (key, value));
    let front = pairs.drop_last();
    assert(keys_distinct(changed)) by {
        assert forall|i: int, j: int| 0 <= i < j < changed.len() implies changed[i].0
            != changed[j].0 by {
            assert(pairs[i].0 != pairs[j].0);
        }
    }
    if at == pairs.len() - 1 {
        assert(changed.drop_last() =~= front);
        assert(map_of(changed) =~= map_of(pairs).insert(key, value));
    } else {
        assert(keys_distinct(front)) by {
            assert forall|i: int, j: int| 0 <= i < j < front.len() implies front[i].0
                != front[j].0 by {
                assert(pairs[i].0 != pairs[j].0);
            }
        }
        lemma_map_of_update(front, at, value);
        assert(changed.drop_last() =~= front.update(at, (key, value)));
        assert(pairs[at].0 != pairs[pairs.len() - 1].0);
        assert(map_of(changed) =~= map_of(pairs).insert(key, value));
    }
}

/// Where no key stands twice, the map has as many keys as the listing has
/// pairs.
pub proof fn lemma_map_of_len<V>(pairs: Seq<(Seq<char>, V)>)
    requires
        keys_distinct(pairs),
    ensures
        map_of(pairs).dom().finite(),
        map_of(pairs).dom().len() == pairs.len(),
    decreases pairs.len(),
{
    if pairs.len() > 0 {
        let front = pairs.drop_last();
        assert(keys_distinct(front)) by {
            assert forall|i: int, j: int| 0 <= i < j < front.len() implies front[i].0
                != front[j].0 by {
                assert(pairs[i].0 != pairs[j].0);
            }
        }
        lemma_map_of_len(front);
        lemma_map_of_keys(front, pairs.last().0);
        if !absent_before(front, pairs.last().0, front.len() as int) {
            let i = choose|i: int| 0 <= i < front.len() && (#[trigger] front[i]).0 == pairs.last().0;
            assert(pairs[i].0 != pairs[pairs.len() - 1].0);
        }
    }
}

/// The entries of a table as mathematical text.
spec fn pairs_of(entries: Seq<(String, String)>) -> Seq<Pair> {
    Seq::new(entries.len(), |i: int| (entries[i].0@, entries[i].1@))
}

/// A table from text keys to text values. Each key stands in it once; a
/// later write to a key replaces the value. The order in which the entries
/// are listed is not part of what the table means.
#[derive(Debug)]
pub struct TextMap {
    entries: Vec<(String, String)>,
}

impl View for TextMap {
    type V = Map<Seq<char>, Seq<char>>;

    open spec fn view(&self) -> Map<Seq<char>, Seq<char>> {
        map_of(self.listing())
    }
}

impl TextMap {
    #[verifier::type_invariant]
    spec fn inv(&self) -> bool {
        keys_distinct(self.listing())
    }

    /// The entries in the order in which `key_at` and `value_at` hand them
    /// out.
    pub closed spec fn listing(&self) -> Seq<Pair> {
        pairs_of(self.entries@)
    }

    /// The empty table.
    pub fn new() -> (out: Self)
        ensures
            out@ == Map::<Seq<char>, Seq<char>>::empty(),
            out.listing() == Seq::<Pair>::empty(),
    {
        let out = TextMap { entries: Vec::new() };
        proof {
            assert(out.listing() =~= Seq::<Pair>::empty());
        }
        out
    }

    /// The number of entries.
    pub fn len(&self) -> (n: usize)
        ensures
            n == self.listing().len(),
            n == self@.dom().len(),
            self@.dom().finite(),
            keys_distinct(self.listing()),
    {
        proof {
            use_type_invariant(self);
            lemma_map_of_len(self.listing());
        }
        self.entries.len()
    }

    /// The key of the entry listed at `at`.
    pub fn key_at(&self, at: usize) -> (key: &String)
        requires
            at < self.listing().len(),
        ensures
            key@ == self.listing()[at as int].0,
    {
        &self.entries[at].0
    }

    /// The value of the entry listed at `at`.
    pub fn value_at(&self, at: usize) -> (value: &String)
        requires
            at < self.listing().len(),
        ensures
            value@ == self.listing()[at as int].1,
    {
        &self.entries[at].1
    }

    /// Where `key` is listed, if it is.
    fn position(&self, key: &String) -> (at: usize)
        ensures
            at <= self.listing().len(),
            absent_before(self.listing(), key@, at as int),
            at < self.listing().len() ==> self.listing()[at as int].0 == key@,
    {
        let mut at: usize = 0;
        while at < self.entries.len()
            invariant
                at <= self.entries@.len(),
                absent_before(self.listing(), key@, at as int),
            decreases self.entries@.len() - at,
        {
            if self.entries[at].0 == *key {
                return at;
            }
            at += 1;
        }
        at
    }

    /// Whether the table has an entry for `key`.
    pub fn contains_key(&self, key: &String) -> (found: bool)
        ensures
            found == self@.contains_key(key@),
    {
        let at = self.position(key);
        proof {
            lemma_map_of_keys(self.listing(), key@);
        }
        at < self.entries.len()
    }

    /// The value that stands under `key`, if there is one.
    pub fn get(&self, key: &String) -> (found: Option<&String>)
        ensures
            found is Some == self@.contains_key(key@),
            found matches Some(value) ==> value@ == self@[key@],
    {
        let at = self.position(key);
        proof {
            use_type_invariant(self);
            lemma_map_of_keys(self.listing(), key@);
        }
        if at < self.entries.len() {
            proof {
                lemma_map_of_value(self.listing(), at as int);
            }
            Some(&self.entries[at].1)
        } else {
            None
        }
    }

    /// Puts `value` under `key`, in place of what stood there.
    pub fn insert(&mut self, key: String, value: String)
        ensures
            final(self)@ == old(self)@.insert(key@, value@),
    {
        let at = self.position(&key);
        proof {
            use_type_invariant(&*self);
        }
        let ghost before = self.listing();
        // The entries leave the table while they change, so that it is
        // whole at every step.
        let mut entries: Vec<(String, String)> = Vec::new();
        proof {
            assert(pairs_of(entries@) =~= Seq::<Pair>::empty());
        }
        core::mem::swap(&mut self.entries, &mut entries);
        if at < entries.len() {
            proof {
                lemma_map_of_update(before, at as int, value@);
            }
            entries.set(at, (key, value));
            proof {
                assert(pairs_of(entries@) =~= before.update(at as int, (key@, value@)));
            }
        } else {
            entries.push((key, value));
            proof {
                let after = pairs_of(entries@);
                assert(after =~= before.push((key@, value@)));
                assert(after.drop_last() =~= before);
                assert forall|i: int, j: int| 0 <= i < j < after.len() implies after[i].0
                    != after[j].0 by {
                    if j < before.len() {
                        assert(before[i].0 != before[j].0);
                    } else {
                        assert(before[i].0 != key@);
                    }
                }
            }
        }
        core::mem::swap(&mut self.entries, &mut entries);
    }

    /// Takes over every entry of `other`. Where both tables have a key, the
    /// value of `other` stands afterwards.
    pub fn extend(&mut self, other: TextMap)
        ensures
            final(self)@ == old(self)@.union_prefer_right(other@),
    {
        let ghost start = self@;
        let ghost incoming = other.listing();
        let entries = other.entries;
        proof {
            assert(start.union_prefer_right(map_of(incoming.take(0))) =~= start);
        }
        for pair in it: entries
            invariant
                it.seq() == entries@,
                incoming == pairs_of(entries@),
                self@ == start.union_prefer_right(map_of(incoming.take(it.index()))),
        {
            let (key, value) = pair;
            proof {
                let done = it.index();
                assert(incoming.take(done + 1).drop_last() =~= incoming.take(done));
                assert(incoming.take(done + 1).last() == (key@, value@));
                assert(start.union_prefer_right(map_of(incoming.take(done)).insert(key@, value@))
                    =~= start.union_prefer_right(map_of(incoming.take(done))).insert(
                    key@,
                    value@,
                ));
            }
            self.insert(key, value);
        }
        proof {
            assert(incoming.take(incoming.len() as int) =~= incoming);
        }
    }
}

impl Clone for TextMap {
    /// A table with the same entries, listed in the same order.
    fn clone(&self) -> (out: TextMap)
        ensures
            out@ == self@,
            out.listing() == self.listing(),
    {
        proof {
            use_type_invariant(self);
        }
        let mut entries: Vec<(String, String)> = Vec::new();
        let mut at: usize = 0;
        while at < self.entries.len()
            invariant
                at <= self.entries@.len(),
                pairs_of(entries@) == self.listing().take(at as int),
            decreases self.entries@.len() - at,
        {
            let ghost before = pairs_of(entries@);
            let key = self.entries[at].0.clone();
            let value = self.entries[at].1.clone();
            entries.push((key, value));
            proof {
                assert(pairs_of(entries@) =~= before.push((key@, value@)));
                assert(self.listing().take(at + 1) =~= self.listing().take(at as int).push(
                    self.listing()[at as int],
                ));
            }
            at += 1;
        }
        proof {
            assert(self.listing().take(at as int) =~= self.listing());
        }
        TextMap { entries }
    }
}

} // verus!
