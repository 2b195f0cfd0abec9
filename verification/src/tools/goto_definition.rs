//! The definition lookup: the symbols with a given name in the files whose
//! text the cache holds.

use vstd::prelude::*;
use crate::cache::{covers, entries_of, lemma_lookup_of_entry, MyServer};
use crate::models::{GotoDefinitionParams, SymbolInfo, SymbolInfoView};
use crate::name_map::distinct_keys;
use crate::syntax::ParsedFile;
use crate::visitors::symbols::{symbols_in_all, SymbolCollector};

verus! {

pub open spec fn named_rule(name: Seq<char>) -> spec_fn(SymbolInfoView) -> Option<SymbolInfoView> {
    |symbol: SymbolInfoView|
        if symbol.name == name {
            Some(symbol)
        } else {
            None
        }
}

/// The symbols of the tree of `file` that are named `name`, in the order of
/// the walk; none for a file without a tree.
pub open spec fn named_in(file: ParsedFile, name: Seq<char>) -> Seq<SymbolInfoView> {
    match file.tree {
        Some(tree) => symbols_in_all(tree.nodes@, file.path@).filter_map(named_rule(name)),
        None => Seq::empty(),
    }
}

/// The symbols of `file` that are named `name`, where the cache holds the
/// text of the file for its path; none otherwise.
pub open spec fn definitions_in(
    cache: Seq<(Seq<char>, Seq<char>)>,
    file: ParsedFile,
    name: Seq<char>,
) -> Seq<SymbolInfoView> {
    if covers(cache, file) {
        named_in(file, name)
    } else {
        Seq::empty()
    }
}

/// The symbols named `name` in every file of `files` that has a tree, file
/// after file.
pub open spec fn named_in_all(files: Seq<ParsedFile>, name: Seq<char>) -> Seq<SymbolInfoView>
    decreases files.len(),
{
    if files.len() == 0 {
        Seq::empty()
    } else {
        named_in_all(files.drop_last(), name) + named_in(files.last(), name)
    }
}

/// The symbols of `files` that are named `name`, file after file.
pub open spec fn definitions(
    cache: Seq<(Seq<char>, Seq<char>)>,
    files: Seq<ParsedFile>,
    name: Seq<char>,
) -> Seq<SymbolInfoView>
    decreases files.len(),
{
    if files.len() == 0 {
        Seq::empty()
    } else {
        definitions(cache, files.drop_last(), name) + definitions_in(cache, files.last(), name)
    }
}

/// Every declaration named `params.name` in those of `files` that have a
/// tree and whose text is the one cached for their path: one entry for
/// each declaration, file after file.
pub fn goto_definition(
    server: &MyServer,
    params: GotoDefinitionParams,
    files: &Vec<ParsedFile>,
) -> (results: Vec<SymbolInfo>)
    ensures
        results.deep_view() == definitions(server.cache@, files@, params.name@),
{
    let ghost cache = server.cache@;
    let ghost name = params.name@;
    let mut results: Vec<SymbolInfo> = Vec::new();
    let mut i: usize = 0;
    assert(files@.take(0) =~= Seq::<ParsedFile>::empty());
    assert(results.deep_view() =~= definitions(cache, files@.take(0), name));
    while i < files.len()
        invariant
            i <= files.len(),
            cache == server.cache@,
            name == params.name@,
            results.deep_view() == definitions(cache, files@.take(i as int), name),
        decreases files.len() - i,
    {
        let file = &files[i];
        let ghost before = results.deep_view();
        assert(files@.take(i + 1).drop_last() =~= files@.take(i as int));
        if server.cache.holds(file.path.as_str(), &file.source) {
            match &file.tree {
                Some(tree) => {
                    let mut collector = SymbolCollector::new(file.path.clone());
                    collector.visit_file(tree);
                    let ghost rule = named_rule(name);
                    let ghost all = collector.out.deep_view();
                    assert(all =~= symbols_in_all(tree.nodes@, file.path@));
                    let mut j: usize = 0;
                    assert(results.deep_view() =~= before + all.take(0).filter_map(rule));
                    while j < collector.out.len()
                        invariant
                            j <= collector.out.len(),
                            all == collector.out.deep_view(),
                            rule == named_rule(name),
                            name == params.name@,
                            results.deep_view() == before + all.take(j as int).filter_map(rule),
                        decreases collector.out.len() - j,
                    {
                        let symbol = &collector.out[j];
                        let ghost found = results.deep_view();
                        assert(all[j as int] == symbol@);
                        proof {
                            all.lemma_filter_map_take_succ(rule, j as int);
                        }
                        if symbol.name == params.name {
                            results.push(symbol.clone());
                            assert(results.deep_view() =~= found.push(symbol@));
                        }
                        j += 1;
                    }
                    assert(all.take(j as int) =~= all);
                },
                None => {},
            }
        }
        assert(results.deep_view() =~= before + definitions_in(cache, *file, name));
        i += 1;
    }
    assert(files@.take(i as int) =~= files@);
    results
}

/// Every symbol of `symbols` is named `name`.
pub open spec fn all_named(symbols: Seq<SymbolInfoView>, name: Seq<char>) -> bool {
    forall|i: int| 0 <= i < symbols.len() ==> (#[trigger] symbols[i]).name == name
}

/// Every symbol kept by the name rule has the name.
pub proof fn lemma_named_rule_keeps_the_name(symbols: Seq<SymbolInfoView>, name: Seq<char>)
    ensures
        all_named(symbols.filter_map(named_rule(name)), name),
    decreases symbols.len(),
{
    if symbols.len() > 0 {
        let rule = named_rule(name);
        let kept = symbols.filter_map(rule);
        let rest = symbols.drop_last().filter_map(rule);
        lemma_named_rule_keeps_the_name(symbols.drop_last(), name);
        assert forall|i: int| 0 <= i < kept.len() implies (#[trigger] kept[i]).name == name by {
            if i < rest.len() {
                assert(kept[i] == rest[i]);
            } else {
                assert(rule(symbols.last()) == Some(kept[i]));
            }
        }
    }
}

/// Every definition found for a name is a symbol of that name.
pub proof fn lemma_definitions_are_named(
    cache: Seq<(Seq<char>, Seq<char>)>,
    files: Seq<ParsedFile>,
    name: Seq<char>,
)
    ensures
        all_named(definitions(cache, files, name), name),
    decreases files.len(),
{
    if files.len() > 0 {
        let found = definitions(cache, files, name);
        let before = definitions(cache, files.drop_last(), name);
        let here = definitions_in(cache, files.last(), name);
        lemma_definitions_are_named(cache, files.drop_last(), name);
        match files.last().tree {
            Some(tree) => {
                lemma_named_rule_keeps_the_name(
                    symbols_in_all(tree.nodes@, files.last().path@),
                    name,
                );
            },
            None => {},
        }
        assert(all_named(named_in(files.last(), name), name));
        assert(all_named(here, name));
        assert forall|i: int| 0 <= i < found.len() implies (#[trigger] found[i]).name == name by {
            if i < before.len() {
                assert(found[i] == before[i]);
            } else {
                assert(found[i] == here[i - before.len()]);
            }
        }
    }
}

/// Where the files handed in are the entries of the cache, with the same
/// paths and texts in the same order, and the cache has no path twice,
/// every cached file is searched: the definitions are the symbols of that
/// name in every entry that has a tree.
pub proof fn lemma_definitions_cover_the_cache(
    cache: Seq<(Seq<char>, Seq<char>)>,
    files: Seq<ParsedFile>,
    name: Seq<char>,
)
    requires
        distinct_keys(cache),
        entries_of(files) == cache,
    ensures
        definitions(cache, files, name) == named_in_all(files, name),
{
    lemma_definitions_of_entries(cache, files, name, files.len());
    assert(files.take(files.len() as int) =~= files);
}

proof fn lemma_definitions_of_entries(
    cache: Seq<(Seq<char>, Seq<char>)>,
    files: Seq<ParsedFile>,
    name: Seq<char>,
    n: nat,
)
    requires
        distinct_keys(cache),
        entries_of(files) == cache,
        n <= files.len(),
    ensures
        definitions(cache, files.take(n as int), name) == named_in_all(files.take(n as int), name),
    decreases n,
{
    if n > 0 {
        let i = n - 1;
        lemma_definitions_of_entries(cache, files, name, i as nat);
        assert(files.take(n as int).drop_last() =~= files.take(i));
        assert(files.take(n as int).last() == files[i]);
        assert(cache[i] == (files[i].path@, files[i].source@));
        lemma_lookup_of_entry(cache, i);
    }
}

} // verus!
