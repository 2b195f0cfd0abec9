//! The source cache: for each file path the text that was last stored for
//! it. Entries are never dropped; storing a text for a path that has one
//! replaces it.
//!
//! `insert` stores what it is given. The operations in `tools` store a text
//! only where the parser accepts it, so a cache that only they have filled
//! holds well-formed texts only: `all_well_formed` says that of a cache, and
//! each of them says that it keeps it.

use vstd::prelude::*;
use crate::name_map::{
    distinct_keys, lemma_first_index, lemma_first_index_is, lookup, put, NameMap,
};
use crate::parse::well_formed;
use crate::syntax::ParsedFile;

verus! {

/// Every text in the cache is one that the parser accepts.
pub open spec fn all_well_formed(cache: Seq<(Seq<char>, Seq<char>)>) -> bool {
    forall|i: int| 0 <= i < cache.len() ==> well_formed(#[trigger] cache[i].1)
}

/// The file has a tree, and the cache holds the text of the file for its
/// path: the tree is of what is cached.
pub open spec fn covers(cache: Seq<(Seq<char>, Seq<char>)>, file: ParsedFile) -> bool {
    file.tree is Some && lookup(cache, file.path@) == Some(file.source@)
}

/// The paths and texts of `files`, in order.
pub open spec fn entries_of(files: Seq<ParsedFile>) -> Seq<(Seq<char>, Seq<char>)> {
    Seq::new(files.len(), |i: int| (files[i].path@, files[i].source@))
}

/// In a cache without a path twice, every entry is what is looked up for
/// its path.
pub proof fn lemma_lookup_of_entry(cache: Seq<(Seq<char>, Seq<char>)>, i: int)
    requires
        distinct_keys(cache),
        0 <= i < cache.len(),
    ensures
        lookup(cache, cache[i].0) == Some(cache[i].1),
{
    lemma_first_index_is(cache, cache[i].0, i);
}

/// Storing a text that the parser accepts in a cache of such texts leaves a
/// cache of such texts.
pub proof fn lemma_put_keeps_well_formed(
    cache: Seq<(Seq<char>, Seq<char>)>,
    path: Seq<char>,
    code: Seq<char>,
)
    ensures
        all_well_formed(cache) && well_formed(code) ==> all_well_formed(put(cache, path, code)),
{
    lemma_first_index(cache, path);
}

/// File paths mapped to source texts.
#[derive(Debug)]
pub struct AstCache {
    map: NameMap<String>,
}

impl View for AstCache {
    type V = Seq<(Seq<char>, Seq<char>)>;

    closed spec fn view(&self) -> Seq<(Seq<char>, Seq<char>)> {
        self.map@
    }
}

impl AstCache {
    /// The empty cache.
    pub fn new() -> (cache: Self)
        ensures
            cache@ == Seq::<(Seq<char>, Seq<char>)>::empty(),
            distinct_keys(cache@),
            all_well_formed(cache@),
    {
        AstCache { map: NameMap::new() }
    }

    /// Stores `code` as the text of `path`.
    pub fn insert(&mut self, path: String, code: String)
        ensures
            final(self)@ == put(old(self)@, path@, code@),
            distinct_keys(old(self)@) ==> distinct_keys(final(self)@),
            all_well_formed(old(self)@) && well_formed(code@) ==> all_well_formed(final(self)@),
    {
        proof {
            lemma_put_keeps_well_formed(self@, path@, code@);
        }
        self.map.insert(path, code);
    }

    /// The text stored for `path`.
    pub fn get(&self, path: &str) -> (code: Option<String>)
        ensures
            match code {
                Some(text) => lookup(self@, path@) == Some(text@),
                None => lookup(self@, path@) is None,
            },
    {
        match self.map.get(path) {
            Some(text) => Some(text.clone()),
            None => None,
        }
    }

    /// Whether `text` is what is stored for `path`.
    pub fn holds(&self, path: &str, text: &String) -> (held: bool)
        ensures
            held == (lookup(self@, path@) == Some(text@)),
    {
        match self.map.get(path) {
            Some(stored) => *stored == *text,
            None => false,
        }
    }

    /// Whether a text is stored for `path`.
    pub fn contains(&self, path: &str) -> (found: bool)
        ensures
            found == lookup(self@, path@).is_some(),
    {
        self.map.contains_key(path)
    }

    /// A copy of every entry, in the order in which the paths first came.
    pub fn get_all(&self) -> (snapshot: Vec<(String, String)>)
        ensures
            snapshot.deep_view() == self@,
    {
        let mut snapshot: Vec<(String, String)> = Vec::new();
        let mut i: usize = 0;
        assert(snapshot.deep_view() =~= self@.take(0));
        while i < self.map.len()
            invariant
                i <= self@.len(),
                snapshot.deep_view() == self@.take(i as int),
            decreases self@.len() - i,
        {
            let ghost found = snapshot.deep_view();
            let path = self.map.key_at(i).clone();
            let code = self.map.value_at(i).clone();
            snapshot.push((path, code));
            assert(snapshot.deep_view() =~= found.push((path@, code@)));
            assert(snapshot.deep_view() =~= self@.take(i + 1));
            i += 1;
        }
        assert(self@.take(i as int) =~= self@);
        snapshot
    }
}

/// The state of the engine between operations: the source cache.
#[derive(Debug)]
pub struct MyServer {
    pub cache: AstCache,
}

impl MyServer {
    /// A server with an empty cache.
    pub fn new() -> (server: Self)
        ensures
            server.cache@ == Seq::<(Seq<char>, Seq<char>)>::empty(),
            distinct_keys(server.cache@),
            all_well_formed(server.cache@),
    {
        MyServer { cache: AstCache::new() }
    }
}

} // verus!
