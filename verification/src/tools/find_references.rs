//! The reference search: the occurrences of a name in the files whose text
//! the cache holds.

use vstd::prelude::*;
use crate::cache::{covers, entries_of, lemma_lookup_of_entry, MyServer};
use crate::models::{FindReferencesParams, ReferenceLocation, ReferenceLocationView};
use crate::name_map::distinct_keys;
use crate::syntax::ParsedFile;
use crate::visitors::references::{references_in_all, ReferenceFinder};

verus! {

/// The occurrences of `name` in the tree of `file`, in the order of the
/// walk; none for a file without a tree.
pub open spec fn found_in(file: ParsedFile, name: Seq<char>) -> Seq<ReferenceLocationView> {
    match file.tree {
        Some(tree) => references_in_all(tree.nodes@, file.path@, name),
        None => Seq::empty(),
    }
}

/// The occurrences of `name` in `file`, where the cache holds the text of
/// the file for its path; none otherwise.
pub open spec fn occurrences_in(
    cache: Seq<(Seq<char>, Seq<char>)>,
    file: ParsedFile,
    name: Seq<char>,
) -> Seq<ReferenceLocationView> {
    if covers(cache, file) {
        found_in(file, name)
    } else {
        Seq::empty()
    }
}

/// The occurrences of `name` in every file of `files` that has a tree, file
/// after file.
pub open spec fn found_in_all(files: Seq<ParsedFile>, name: Seq<char>) -> Seq<
    ReferenceLocationView,
>
    decreases files.len(),
{
    if files.len() == 0 {
        Seq::empty()
    } else {
        found_in_all(files.drop_last(), name) + found_in(files.last(), name)
    }
}

/// The occurrences of `name` in `files`, file after file.
pub open spec fn occurrences(
    cache: Seq<(Seq<char>, Seq<char>)>,
    files: Seq<ParsedFile>,
    name: Seq<char>,
) -> Seq<ReferenceLocationView>
    decreases files.len(),
{
    if files.len() == 0 {
        Seq::empty()
    } else {
        occurrences(cache, files.drop_last(), name) + occurrences_in(cache, files.last(), name)
    }
}

/// Every occurrence of `params.name` in those of `files` that have a tree
/// and whose text is the one cached for their path, file after file.
pub fn find_references(
    server: &MyServer,
    params: FindReferencesParams,
    files: &Vec<ParsedFile>,
) -> (refs: Vec<ReferenceLocation>)
    ensures
        refs.deep_view() == occurrences(server.cache@, files@, params.name@),
{
    let ghost cache = server.cache@;
    let ghost name = params.name@;
    let mut refs: Vec<ReferenceLocation> = Vec::new();
    let mut i: usize = 0;
    assert(files@.take(0) =~= Seq::<ParsedFile>::empty());
    assert(refs.deep_view() =~= occurrences(cache, files@.take(0), name));
    while i < files.len()
        invariant
            i <= files.len(),
            cache == server.cache@,
            name == params.name@,
            refs.deep_view() == occurrences(cache, files@.take(i as int), name),
        decreases files.len() - i,
    {
        let file = &files[i];
        let ghost before = refs.deep_view();
        assert(files@.take(i + 1).drop_last() =~= files@.take(i as int));
        if server.cache.holds(file.path.as_str(), &file.source) {
            match &file.tree {
                Some(tree) => {
                    let mut finder = ReferenceFinder::new(params.name.clone(), file.path.clone());
                    finder.visit_file(tree);
                    let mut found = finder.matches;
                    assert(found.deep_view() =~= references_in_all(
                        tree.nodes@,
                        file.path@,
                        name,
                    ));
                    refs.append(&mut found);
                    assert(refs.deep_view() =~= before + references_in_all(
                        tree.nodes@,
                        file.path@,
                        name,
                    ));
                },
                None => {},
            }
        }
        assert(refs.deep_view() =~= before + occurrences_in(cache, *file, name));
        i += 1;
    }
    assert(files@.take(i as int) =~= files@);
    refs
}

/// Where the files handed in are the entries of the cache, with the same
/// paths and texts in the same order, and the cache has no path twice,
/// every cached file is searched: the occurrences are those in every entry
/// that has a tree.
pub proof fn lemma_occurrences_cover_the_cache(
    cache: Seq<(Seq<char>, Seq<char>)>,
    files: Seq<ParsedFile>,
    name: Seq<char>,
)
    requires
        distinct_keys(cache),
        entries_of(files) == cache,
    ensures
        occurrences(cache, files, name) == found_in_all(files, name),
{
    lemma_occurrences_of_entries(cache, files, name, files.len());
    assert(files.take(files.len() as int) =~= files);
}

proof fn lemma_occurrences_of_entries(
    cache: Seq<(Seq<char>, Seq<char>)>,
    files: Seq<ParsedFile>,
    name: Seq<char>,
    n: nat,
)
    requires
        distinct_keys(cache),
        entries_of(files) == cache,
        n <= files.len(),
    ensures
        occurrences(cache, files.take(n as int), name) == found_in_all(files.take(n as int), name),
    decreases n,
{
    if n > 0 {
        let i = n - 1;
        lemma_occurrences_of_entries(cache, files, name, i as nat);
        assert(files.take(n as int).drop_last() =~= files.take(i));
        assert(files.take(n as int).last() == files[i]);
        assert(cache[i] == (files[i].path@, files[i].source@));
        lemma_lookup_of_entry(cache, i);
    }
}

} // verus!
