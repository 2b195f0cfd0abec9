//! Workspace indexing: every file is walked by the collectors, what they
//! gather is merged file after file, and the findings are made once over
//! the merged data.
//!
//! A file whose path the cache does not know is stored in the cache if it
//! has a tree and the parser accepts its text; a path that has a text keeps
//! it. A file is walked if, after that, it has a tree and its text is the
//! one cached for its path: what is indexed is what is cached, and nothing
//! is cached that does not parse.

use vstd::prelude::*;
use crate::cache::{all_well_formed, covers, lemma_put_keeps_well_formed, MyServer};
use crate::models::{
    CallGraph, EnumInfo, EnumInfoView, FunctionInfo, FunctionInfoView, ModuleDependencyGraph,
    ReferenceLocation, ReferenceLocationView, StructInfo, StructInfoView, TypeUsageGraph,
    WorkspaceGraphs, WorkspaceGraphsView,
};
use crate::name_map::{
    distinct_keys, join_all, lemma_put, lookup, put, put_all, values_of, NameMap,
};
use crate::parse::{is_well_formed, well_formed};
use crate::smells::{
    detect_unused_functions, generate_refactoring_suggestions, refactoring_suggestions,
    unused_functions,
};
use crate::syntax::{ParsedFile, SyntaxTree};
use crate::visitors::call_graph::{calls_in_all, declared_in_all, CallGraphCollector};
use crate::visitors::module_deps::{imports_in_all, ModuleDependencyCollector};
use crate::visitors::type_usage::{
    enums_in_all, structs_in_all, usages_in_all, TypeUsageCollector,
};

verus! {

/// What has been merged so far.
pub struct WorkspaceIndexView {
    pub calls: Seq<(Seq<char>, Seq<Seq<char>>)>,
    pub usages: Seq<(Seq<char>, Seq<ReferenceLocationView>)>,
    pub imports: Seq<(Seq<char>, Seq<Seq<char>>)>,
    pub functions: Seq<FunctionInfoView>,
    pub structs: Seq<StructInfoView>,
    pub enums: Seq<EnumInfoView>,
}

/// The call map that the call collector gathers from `tree` alone.
pub open spec fn file_calls(tree: SyntaxTree) -> Seq<(Seq<char>, Seq<Seq<char>>)> {
    join_all(Seq::empty(), calls_in_all(tree.nodes@, None))
}

/// The function measures of `tree` alone: for each name the last
/// declaration, in the order in which the names first occur.
pub open spec fn file_functions(tree: SyntaxTree, path: Seq<char>) -> Seq<FunctionInfoView> {
    values_of(put_all(Seq::empty(), declared_in_all(tree.nodes@, path)))
}

/// The usage index of `tree` alone.
pub open spec fn file_usages(tree: SyntaxTree, path: Seq<char>) -> Seq<
    (Seq<char>, Seq<ReferenceLocationView>),
> {
    join_all(Seq::empty(), usages_in_all(tree.nodes@, path))
}

/// The structs of `tree` alone, the last declaration of each name.
pub open spec fn file_structs(tree: SyntaxTree, path: Seq<char>) -> Seq<StructInfoView> {
    values_of(put_all(Seq::empty(), structs_in_all(tree.nodes@, path)))
}

/// The enums of `tree` alone, the last declaration of each name.
pub open spec fn file_enums(tree: SyntaxTree, path: Seq<char>) -> Seq<EnumInfoView> {
    values_of(put_all(Seq::empty(), enums_in_all(tree.nodes@, path)))
}

/// The dependency map of `tree` alone.
pub open spec fn file_imports(tree: SyntaxTree, path: Seq<char>) -> Seq<
    (Seq<char>, Seq<Seq<char>>),
> {
    join_all(Seq::empty(), imports_in_all(tree.nodes@, path))
}

/// `index` with what the collectors gather from `tree` merged into it:
/// lists are appended where a key is known, and nothing is dropped.
pub open spec fn merged(index: WorkspaceIndexView, tree: SyntaxTree, path: Seq<char>)
    -> WorkspaceIndexView {
    WorkspaceIndexView {
        calls: join_all(index.calls, file_calls(tree)),
        usages: join_all(index.usages, file_usages(tree, path)),
        imports: join_all(index.imports, file_imports(tree, path)),
        functions: index.functions + file_functions(tree, path),
        structs: index.structs + file_structs(tree, path),
        enums: index.enums + file_enums(tree, path),
    }
}

/// The index with nothing in it.
pub open spec fn empty_index() -> WorkspaceIndexView {
    WorkspaceIndexView {
        calls: Seq::empty(),
        usages: Seq::empty(),
        imports: Seq::empty(),
        functions: Seq::empty(),
        structs: Seq::empty(),
        enums: Seq::empty(),
    }
}

/// The cache after `file` has been taken in: its text is stored for its
/// path if the cache has no text for the path, the file has a tree, and the
/// parser accepts the text. Otherwise the cache stays as it is.
pub open spec fn admitted(cache: Seq<(Seq<char>, Seq<char>)>, file: ParsedFile) -> Seq<
    (Seq<char>, Seq<char>),
> {
    if lookup(cache, file.path@) is None && file.tree is Some && well_formed(file.source@) {
        put(cache, file.path@, file.source@)
    } else {
        cache
    }
}

/// The cache after the files of `files` have been taken in, in order.
pub open spec fn populated(cache: Seq<(Seq<char>, Seq<char>)>, files: Seq<ParsedFile>) -> Seq<
    (Seq<char>, Seq<char>),
>
    decreases files.len(),
{
    if files.len() == 0 {
        cache
    } else {
        admitted(populated(cache, files.drop_last()), files.last())
    }
}

/// The index of `files` taken in by a cache that was `cache`: the files
/// that the cache covers once they are taken in, merged in order. Any other
/// file adds nothing.
pub open spec fn indexed(cache: Seq<(Seq<char>, Seq<char>)>, files: Seq<ParsedFile>)
    -> WorkspaceIndexView
    decreases files.len(),
{
    if files.len() == 0 {
        empty_index()
    } else {
        let before = indexed(cache, files.drop_last());
        match files.last().tree {
            Some(tree) => if covers(populated(cache, files), files.last()) {
                merged(before, tree, files.last().path@)
            } else {
                before
            },
            None => before,
        }
    }
}

/// The graphs of an index, with the findings over its data.
pub open spec fn graphs_of(index: WorkspaceIndexView) -> WorkspaceGraphsView {
    WorkspaceGraphsView {
        call_graph: index.calls,
        type_usage_graph: index.usages,
        module_dependency_graph: index.imports,
        unused_functions: unused_functions(index.functions, index.calls),
        refactoring_suggestions: refactoring_suggestions(
            index.functions,
            index.structs,
            index.enums,
            index.calls,
            index.usages,
        ),
        function_info: index.functions,
        struct_info: index.structs,
        enum_info: index.enums,
    }
}

/// Taking files in keeps a cache of well-formed texts one, and a cache
/// without a path twice one.
pub proof fn lemma_populated_keeps(cache: Seq<(Seq<char>, Seq<char>)>, files: Seq<ParsedFile>)
    ensures
        all_well_formed(cache) ==> all_well_formed(populated(cache, files)),
        distinct_keys(cache) ==> distinct_keys(populated(cache, files)),
    decreases files.len(),
{
    if files.len() > 0 {
        let before = populated(cache, files.drop_last());
        let file = files.last();
        lemma_populated_keeps(cache, files.drop_last());
        lemma_put_keeps_well_formed(before, file.path@, file.source@);
        lemma_put(before, file.path@, file.source@, file.path@);
    }
}

/// A path has a text after files were taken in only if it had one before,
/// or if one of the files has that path, has a tree, and has a text that
/// the parser accepts: a file that does not parse is never cached.
pub proof fn lemma_only_accepted_texts_are_cached(
    cache: Seq<(Seq<char>, Seq<char>)>,
    files: Seq<ParsedFile>,
    path: Seq<char>,
)
    ensures
        lookup(populated(cache, files), path) is Some ==> lookup(cache, path) is Some || exists|
            i: int,
        |
            0 <= i < files.len() && (#[trigger] files[i]).path@ == path && files[i].tree is Some
                && well_formed(files[i].source@),
    decreases files.len(),
{
    if files.len() > 0 {
        let before = populated(cache, files.drop_last());
        let file = files.last();
        lemma_only_accepted_texts_are_cached(cache, files.drop_last(), path);
        lemma_put(before, file.path@, file.source@, path);
        if lookup(populated(cache, files), path) is Some && lookup(cache, path) is None {
            if lookup(before, path) is Some {
                let i = choose|i: int|
                    0 <= i < files.drop_last().len() && (#[trigger] files.drop_last()[i]).path@
                        == path && files.drop_last()[i].tree is Some && well_formed(
                        files.drop_last()[i].source@,
                    );
                assert(files[i] == files.drop_last()[i]);
            } else {
                assert(files[files.len() - 1] == file);
            }
        }
    }
}

/// The data merged while a workspace is indexed.
pub struct WorkspaceIndex {
    pub call_graph: NameMap<Vec<String>>,
    pub type_usage: NameMap<Vec<ReferenceLocation>>,
    pub module_deps: NameMap<Vec<String>>,
    pub functions: Vec<FunctionInfo>,
    pub structs: Vec<StructInfo>,
    pub enums: Vec<EnumInfo>,
}

impl View for WorkspaceIndex {
    type V = WorkspaceIndexView;

    open spec fn view(&self) -> WorkspaceIndexView {
        WorkspaceIndexView {
            calls: self.call_graph@,
            usages: self.type_usage@,
            imports: self.module_deps@,
            functions: self.functions.deep_view(),
            structs: self.structs.deep_view(),
            enums: self.enums.deep_view(),
        }
    }
}

impl WorkspaceIndex {
    /// The index with nothing in it.
    pub fn new() -> (index: Self)
        ensures
            index@ == empty_index(),
    {
        let index = WorkspaceIndex {
            call_graph: NameMap::new(),
            type_usage: NameMap::new(),
            module_deps: NameMap::new(),
            functions: Vec::new(),
            structs: Vec::new(),
            enums: Vec::new(),
        };
        assert(index.functions.deep_view() =~= Seq::<FunctionInfoView>::empty());
        assert(index.structs.deep_view() =~= Seq::<StructInfoView>::empty());
        assert(index.enums.deep_view() =~= Seq::<EnumInfoView>::empty());
        index
    }

    /// Walks `tree` with each collector and merges what they gather.
    pub fn add_file(&mut self, path: &String, tree: &SyntaxTree)
        ensures
            final(self)@ == merged(old(self)@, *tree, path@),
    {
        let mut calls = CallGraphCollector::new(path.clone());
        calls.visit_file(tree);
        self.call_graph.absorb(calls.calls);
        let mut functions = calls.function_info.into_values();
        assert(functions.deep_view() =~= file_functions(*tree, path@));
        let ghost had_functions = self.functions.deep_view();
        self.functions.append(&mut functions);
        assert(self.functions.deep_view() =~= had_functions + file_functions(*tree, path@));

        let mut types = TypeUsageCollector::new(path.clone());
        types.visit_file(tree);
        self.type_usage.absorb(types.usages);
        let mut structs = types.struct_info.into_values();
        let mut enums = types.enum_info.into_values();
        assert(structs.deep_view() =~= file_structs(*tree, path@));
        assert(enums.deep_view() =~= file_enums(*tree, path@));
        let ghost had_structs = self.structs.deep_view();
        let ghost had_enums = self.enums.deep_view();
        self.structs.append(&mut structs);
        self.enums.append(&mut enums);
        assert(self.structs.deep_view() =~= had_structs + file_structs(*tree, path@));
        assert(self.enums.deep_view() =~= had_enums + file_enums(*tree, path@));

        let mut modules = ModuleDependencyCollector::new(path.clone());
        modules.visit_file(tree);
        self.module_deps.absorb(modules.dependencies);
    }

    /// The graphs of the index, with the findings over its data.
    pub fn finish(self) -> (graphs: WorkspaceGraphs)
        ensures
            graphs@ == graphs_of(self@),
    {
        let unused_functions = detect_unused_functions(&self.functions, &self.call_graph);
        let refactoring_suggestions = generate_refactoring_suggestions(
            &self.functions,
            &self.structs,
            &self.enums,
            &self.call_graph,
            &self.type_usage,
        );
        WorkspaceGraphs {
            call_graph: CallGraph { calls: self.call_graph },
            type_usage_graph: TypeUsageGraph { usages: self.type_usage },
            module_dependency_graph: ModuleDependencyGraph { dependencies: self.module_deps },
            unused_functions,
            refactoring_suggestions,
            function_info: self.functions,
            struct_info: self.structs,
            enum_info: self.enums,
        }
    }
}

/// Indexes `files` in their order. Each file is first taken in by the
/// cache, which stores its text only if the path is new, the file has a
/// tree, and the parser accepts the text. The file is then walked if it has
/// a tree and its text is the one cached for its path. The parser's table
/// of source positions for this thread is emptied on the way (see `parse`).
pub fn index_workspace(server: &mut MyServer, files: &Vec<ParsedFile>) -> (graphs: WorkspaceGraphs)
    ensures
        final(server).cache@ == populated(old(server).cache@, files@),
        graphs@ == graphs_of(indexed(old(server).cache@, files@)),
        all_well_formed(old(server).cache@) ==> all_well_formed(final(server).cache@),
        distinct_keys(old(server).cache@) ==> distinct_keys(final(server).cache@),
{
    let mut index = WorkspaceIndex::new();
    let mut i: usize = 0;
    assert(files@.take(0) =~= Seq::<ParsedFile>::empty());
    while i < files.len()
        invariant
            i <= files.len(),
            server.cache@ == populated(old(server).cache@, files@.take(i as int)),
            index@ == indexed(old(server).cache@, files@.take(i as int)),
        decreases files.len() - i,
    {
        let file = &files[i];
        assert(files@.take(i + 1).drop_last() =~= files@.take(i as int));
        if file.tree.is_some() && !server.cache.contains(file.path.as_str()) && is_well_formed(
            file.source.as_str(),
        ) {
            server.cache.insert(file.path.clone(), file.source.clone());
        }
        if server.cache.holds(file.path.as_str(), &file.source) {
            match &file.tree {
                Some(tree) => {
                    index.add_file(&file.path, tree);
                },
                None => {},
            }
        }
        i += 1;
    }
    assert(files@.take(i as int) =~= files@);
    proof {
        lemma_populated_keeps(old(server).cache@, files@);
    }
    index.finish()
}

} // verus!
