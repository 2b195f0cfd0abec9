//! A map from names to values that keeps its keys in the order of their
//! first insertion.
//!
//! The model of a map is the sequence of its entries, each a name and the
//! deep view of its value. A name is looked up at its first entry. A new
//! map has no key twice, and no operation adds a second entry for a name
//! that has one: each says so of the map it leaves.

use vstd::prelude::*;

verus! {

/// Position of the first entry of `entries` whose key is `key`, if any.
pub open spec fn first_index<T>(entries: Seq<(Seq<char>, T)>, key: Seq<char>) -> Option<int>
    decreases entries.len(),
{
    if entries.len() == 0 {
        None
    } else if first_index(entries.drop_last(), key) is Some {
        first_index(entries.drop_last(), key)
    } else if entries.last().0 == key {
        Some(entries.len() - 1)
    } else {
        None
    }
}

/// The value that `entries` holds for `key`.
pub open spec fn lookup<T>(entries: Seq<(Seq<char>, T)>, key: Seq<char>) -> Option<T> {
    match first_index(entries, key) {
        Some(i) => Some(entries[i].1),
        None => None,
    }
}

/// `entries` with `value` as the value of `key`: in place of the value that
/// `key` had, or as a new last entry.
pub open spec fn put<T>(entries: Seq<(Seq<char>, T)>, key: Seq<char>, value: T) -> Seq<
    (Seq<char>, T),
> {
    match first_index(entries, key) {
        Some(i) => entries.update(i, (key, value)),
        None => entries.push((key, value)),
    }
}

/// `entries` with `items` appended to the list of `key`; a key without an
/// entry gets one whose list is `items`.
pub open spec fn join<T>(entries: Seq<(Seq<char>, Seq<T>)>, key: Seq<char>, items: Seq<T>) -> Seq<
    (Seq<char>, Seq<T>),
> {
    match first_index(entries, key) {
        Some(i) => entries.update(i, (key, entries[i].1 + items)),
        None => entries.push((key, items)),
    }
}

/// `entries` after each of `additions` has been joined to it, in order.
pub open spec fn join_all<T>(
    entries: Seq<(Seq<char>, Seq<T>)>,
    additions: Seq<(Seq<char>, Seq<T>)>,
) -> Seq<(Seq<char>, Seq<T>)>
    decreases additions.len(),
{
    if additions.len() == 0 {
        entries
    } else {
        join(join_all(entries, additions.drop_last()), additions.last().0, additions.last().1)
    }
}

/// `entries` after each of `additions` has been put into it, in order.
pub open spec fn put_all<T>(
    entries: Seq<(Seq<char>, T)>,
    additions: Seq<(Seq<char>, T)>,
) -> Seq<(Seq<char>, T)>
    decreases additions.len(),
{
    if additions.len() == 0 {
        entries
    } else {
        put(put_all(entries, additions.drop_last()), additions.last().0, additions.last().1)
    }
}

/// No two entries have the same key.
pub open spec fn distinct_keys<T>(entries: Seq<(Seq<char>, T)>) -> bool {
    forall|i: int, j: int| 0 <= i < j < entries.len() ==> entries[i].0 != entries[j].0
}

/// The values of `entries`, in order.
pub open spec fn values_of<T>(entries: Seq<(Seq<char>, T)>) -> Seq<T> {
    Seq::new(entries.len(), |i: int| entries[i].1)
}

/// `first_index` finds the least position that holds the key, and finds
/// none exactly when no entry holds it.
pub proof fn lemma_first_index<T>(entries: Seq<(Seq<char>, T)>, key: Seq<char>)
    ensures
        match first_index(entries, key) {
            Some(i) => {
                &&& 0 <= i < entries.len()
                &&& entries[i].0 == key
                &&& forall|j: int| 0 <= j < i ==> entries[j].0 != key
            },
            None => forall|j: int| 0 <= j < entries.len() ==> entries[j].0 != key,
        },
    decreases entries.len(),
{
    if entries.len() > 0 {
        let rest = entries.drop_last();
        lemma_first_index(rest, key);
        assert(forall|j: int| 0 <= j < rest.len() ==> rest[j] == entries[j]);
    }
}

/// A position that holds the key, with no earlier one that does, is what
/// `first_index` finds.
pub proof fn lemma_first_index_is<T>(entries: Seq<(Seq<char>, T)>, key: Seq<char>, i: int)
    requires
        0 <= i < entries.len(),
        entries[i].0 == key,
        forall|j: int| 0 <= j < i ==> entries[j].0 != key,
    ensures
        first_index(entries, key) == Some(i),
{
    lemma_first_index(entries, key);
}

/// After a join the key holds its former list followed by the new items,
/// every other key holds what it held, and keys that were distinct stay so.
pub proof fn lemma_join<T>(
    entries: Seq<(Seq<char>, Seq<T>)>,
    key: Seq<char>,
    items: Seq<T>,
    other: Seq<char>,
)
    ensures
        lookup(join(entries, key, items), key) == Some(
            match lookup(entries, key) {
                Some(list) => list + items,
                None => items,
            },
        ),
        other != key ==> lookup(join(entries, key, items), other) == lookup(entries, other),
        distinct_keys(entries) ==> distinct_keys(join(entries, key, items)),
{
    let joined = join(entries, key, items);
    lemma_first_index(entries, key);
    lemma_first_index(entries, other);
    lemma_first_index(joined, key);
    lemma_first_index(joined, other);
    match first_index(entries, key) {
        Some(i) => {
            lemma_first_index_is(joined, key, i);
        },
        None => {
            lemma_first_index_is(joined, key, entries.len() as int);
        },
    }
    if other != key {
        match first_index(entries, other) {
            Some(i) => {
                lemma_first_index_is(joined, other, i);
            },
            None => {},
        }
    }
}

/// After a put the key holds the new value, every other key holds what it
/// held, and keys that were distinct stay so.
pub proof fn lemma_put<T>(entries: Seq<(Seq<char>, T)>, key: Seq<char>, value: T, other: Seq<char>)
    ensures
        lookup(put(entries, key, value), key) == Some(value),
        other != key ==> lookup(put(entries, key, value), other) == lookup(entries, other),
        distinct_keys(entries) ==> distinct_keys(put(entries, key, value)),
{
    let after = put(entries, key, value);
    lemma_first_index(entries, key);
    lemma_first_index(entries, other);
    lemma_first_index(after, key);
    lemma_first_index(after, other);
    match first_index(entries, key) {
        Some(i) => {
            lemma_first_index_is(after, key, i);
        },
        None => {
            lemma_first_index_is(after, key, entries.len() as int);
        },
    }
    if other != key {
        match first_index(entries, other) {
            Some(i) => {
                lemma_first_index_is(after, other, i);
            },
            None => {},
        }
    }
}

#[derive(Debug)]
struct Entry<V> {
    key: String,
    value: V,
}

/// Names mapped to values, in the order in which the names first came.
#[derive(Debug)]
pub struct NameMap<V> {
    entries: Vec<Entry<V>>,
}

impl<V: DeepView> View for NameMap<V> {
    type V = Seq<(Seq<char>, V::V)>;

    closed spec fn view(&self) -> Seq<(Seq<char>, V::V)> {
        Seq::new(
            self.entries.len() as nat,
            |i: int| (self.entries[i].key@, self.entries[i].value.deep_view()),
        )
    }
}

impl<V: DeepView> DeepView for NameMap<V> {
    type V = Seq<(Seq<char>, V::V)>;

    open spec fn deep_view(&self) -> Seq<(Seq<char>, V::V)> {
        self@
    }
}

impl<V: DeepView> NameMap<V> {
    /// The empty map.
    pub fn new() -> (map: Self)
        ensures
            map@ == Seq::<(Seq<char>, V::V)>::empty(),
            distinct_keys(map@),
    {
        let map = NameMap { entries: Vec::new() };
        assert(map@ =~= Seq::<(Seq<char>, V::V)>::empty());
        map
    }

    /// Number of entries.
    pub fn len(&self) -> (n: usize)
        ensures
            n == self@.len(),
    {
        self.entries.len()
    }

    /// The key of the entry at `index`.
    pub fn key_at(&self, index: usize) -> (key: &String)
        requires
            index < self@.len(),
        ensures
            key@ == self@[index as int].0,
    {
        &self.entries[index].key
    }

    /// The value of the entry at `index`.
    pub fn value_at(&self, index: usize) -> (value: &V)
        requires
            index < self@.len(),
        ensures
            value.deep_view() == self@[index as int].1,
    {
        &self.entries[index].value
    }

    /// Where the entry of `key` stands.
    pub fn position(&self, key: &str) -> (at: Option<usize>)
        ensures
            match at {
                Some(i) => first_index(self@, key@) == Some(i as int) && i < self@.len(),
                None => first_index(self@, key@) is None,
            },
    {
        let wanted = key.to_owned();
        let mut i: usize = 0;
        while i < self.entries.len()
            invariant
                i <= self.entries.len(),
                wanted@ == key@,
                forall|j: int| 0 <= j < i ==> self@[j].0 != key@,
            decreases self.entries.len() - i,
        {
            if self.entries[i].key == wanted {
                proof {
                    lemma_first_index_is(self@, key@, i as int);
                }
                return Some(i);
            }
            i += 1;
        }
        proof {
            lemma_first_index(self@, key@);
        }
        None
    }

    /// Whether `key` has an entry.
    pub fn contains_key(&self, key: &str) -> (found: bool)
        ensures
            found == lookup(self@, key@).is_some(),
    {
        self.position(key).is_some()
    }

    /// The value of `key`.
    pub fn get(&self, key: &str) -> (value: Option<&V>)
        ensures
            match value {
                Some(v) => lookup(self@, key@) == Some(v.deep_view()),
                None => lookup(self@, key@) is None,
            },
    {
        match self.position(key) {
            Some(i) => Some(&self.entries[i].value),
            None => None,
        }
    }

    /// Makes `value` the value of `key`. A key that has an entry keeps its
    /// place; a new key comes last.
    pub fn insert(&mut self, key: String, value: V)
        ensures
            final(self)@ == put(old(self)@, key@, value.deep_view()),
            distinct_keys(old(self)@) ==> distinct_keys(final(self)@),
    {
        proof {
            lemma_first_index(self@, key@);
            lemma_put(self@, key@, value.deep_view(), key@);
        }
        match self.position(key.as_str()) {
            Some(i) => {
                self.entries[i].value = value;
                assert(self@ =~= put(old(self)@, key@, value.deep_view()));
            },
            None => {
                self.entries.push(Entry { key, value });
                assert(self@ =~= put(old(self)@, key@, value.deep_view()));
            },
        }
    }

    /// Inserts every entry of `entries`, in order.
    pub fn insert_all(&mut self, entries: Vec<(String, V)>)
        ensures
            final(self)@ == put_all(old(self)@, entries.deep_view()),
            distinct_keys(old(self)@) ==> distinct_keys(final(self)@),
    {
        let ghost all = entries.deep_view();
        assert(all.take(0) =~= Seq::<(Seq<char>, V::V)>::empty());
        for entry in it: entries
            invariant
                it.seq() == entries@,
                all == entries.deep_view(),
                self@ == put_all(old(self)@, all.take(it.index() as int)),
                distinct_keys(old(self)@) ==> distinct_keys(self@),
        {
            assert(all.take(it.index() + 1).drop_last() =~= all.take(it.index() as int));
            assert(all[it.index() as int] == (entry.0@, entry.1.deep_view()));
            self.insert(entry.0, entry.1);
        }
        assert(all.take(all.len() as int) =~= all);
    }

    /// The values, in the order of their keys.
    pub fn into_values(self) -> (values: Vec<V>)
        ensures
            values.deep_view() == values_of(self@),
    {
        let ghost all = self@;
        let mut values: Vec<V> = Vec::new();
        for entry in it: self.entries
            invariant
                it.seq() == self.entries@,
                all == self@,
                values.deep_view() == values_of(all.take(it.index() as int)),
        {
            let ghost found = values.deep_view();
            values.push(entry.value);
            assert(values.deep_view() =~= found.push(entry.value.deep_view()));
            assert(values.deep_view() =~= values_of(all.take(it.index() + 1)));
        }
        assert(values.deep_view() =~= values_of(all));
        values
    }
}

impl<X: DeepView> NameMap<Vec<X>> {
    /// Appends `items` to the list of `key`; a key without an entry gets one.
    pub fn extend_at(&mut self, key: String, items: Vec<X>)
        ensures
            final(self)@ == join(old(self)@, key@, items.deep_view()),
            distinct_keys(old(self)@) ==> distinct_keys(final(self)@),
    {
        let mut rest = items;
        proof {
            lemma_first_index(self@, key@);
            lemma_join(self@, key@, items.deep_view(), key@);
        }
        match self.position(key.as_str()) {
            Some(i) => {
                self.entries[i].value.append(&mut rest);
                assert(self.entries[i as int].value.deep_view() =~= old(self)@[i as int].1
                    + items.deep_view());
                assert(self@ =~= join(old(self)@, key@, items.deep_view()));
            },
            None => {
                self.entries.push(Entry { key, value: rest });
                assert(self@ =~= join(old(self)@, key@, items.deep_view()));
            },
        }
    }

    /// Appends the list of every entry of `entries` at its key, in order.
    pub fn extend_all(&mut self, entries: Vec<(String, Vec<X>)>)
        ensures
            final(self)@ == join_all(old(self)@, entries.deep_view()),
            distinct_keys(old(self)@) ==> distinct_keys(final(self)@),
    {
        let ghost all = entries.deep_view();
        assert(all.take(0) =~= Seq::<(Seq<char>, Seq<X::V>)>::empty());
        for entry in it: entries
            invariant
                it.seq() == entries@,
                all == entries.deep_view(),
                self@ == join_all(old(self)@, all.take(it.index() as int)),
                distinct_keys(old(self)@) ==> distinct_keys(self@),
        {
            assert(all.take(it.index() + 1).drop_last() =~= all.take(it.index() as int));
            assert(all[it.index() as int] == (entry.0@, entry.1.deep_view()));
            self.extend_at(entry.0, entry.1);
        }
        assert(all.take(all.len() as int) =~= all);
    }

    /// Joins every entry of `other` to this map, in the order of `other`.
    pub fn absorb(&mut self, other: NameMap<Vec<X>>)
        ensures
            final(self)@ == join_all(old(self)@, other@),
            distinct_keys(old(self)@) ==> distinct_keys(final(self)@),
    {
        let ghost all = other@;
        assert(all.take(0) =~= Seq::<(Seq<char>, Seq<X::V>)>::empty());
        for entry in it: other.entries
            invariant
                it.seq() == other.entries@,
                all == other@,
                self@ == join_all(old(self)@, all.take(it.index() as int)),
                distinct_keys(old(self)@) ==> distinct_keys(self@),
        {
            assert(all.take(it.index() + 1).drop_last() =~= all.take(it.index() as int));
            self.extend_at(entry.key, entry.value);
        }
        assert(all.take(all.len() as int) =~= all);
    }
}

} // verus!
