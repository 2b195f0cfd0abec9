//! The names that the import declarations of a tree bring in.

use vstd::prelude::*;
use crate::name_map::{join_all, NameMap};
use crate::syntax::{Node, SyntaxTree};

verus! {

/// The names that the import tree `tree` brings in: a path segment gives
/// its own name and then those of what follows it, a plain name gives
/// itself, a renamed import gives the new name, a glob gives nothing, and a
/// group gives the names of its members in order.
pub open spec fn imported_names(tree: Node) -> Seq<Seq<char>>
    decreases tree,
{
    match tree {
        Node::UsePath { ident, tree } => seq![ident.name@] + imported_names(*tree),
        Node::UseName { ident } => seq![ident.name@],
        Node::UseRename { alias, .. } => seq![alias.name@],
        Node::UseGroup { items } => imported_names_all(items@),
        _ => Seq::empty(),
    }
}

/// The names that the import trees `trees` bring in, tree after tree.
pub open spec fn imported_names_all(trees: Seq<Node>) -> Seq<Seq<char>>
    decreases trees,
{
    if trees.len() == 0 {
        Seq::empty()
    } else {
        imported_names_all(trees.drop_last()) + imported_names(trees.last())
    }
}

/// Appends the names that `tree` brings in to `deps`.
pub fn extract_use_paths(tree: &Node, deps: &mut Vec<String>)
    ensures
        final(deps).deep_view() == old(deps).deep_view() + imported_names(*tree),
    decreases tree,
{
    match tree {
        Node::UsePath { ident, tree } => {
            deps.push(ident.name.clone());
            extract_use_paths(tree, deps);
        },
        Node::UseName { ident } => {
            deps.push(ident.name.clone());
        },
        Node::UseRename { alias, .. } => {
            deps.push(alias.name.clone());
        },
        Node::UseGroup { items } => {
            extract_use_paths_all(items, deps);
        },
        _ => {},
    }
    assert(deps.deep_view() =~= old(deps).deep_view() + imported_names(*tree));
}

/// Appends the names that `trees` bring in to `deps`.
pub fn extract_use_paths_all(trees: &Vec<Node>, deps: &mut Vec<String>)
    ensures
        final(deps).deep_view() == old(deps).deep_view() + imported_names_all(trees@),
    decreases trees,
{
    let mut i: usize = 0;
    assert(trees@.take(0) =~= Seq::<Node>::empty());
    assert(deps.deep_view() =~= old(deps).deep_view() + imported_names_all(trees@.take(0)));
    while i < trees.len()
        invariant
            i <= trees.len(),
            deps.deep_view() == old(deps).deep_view() + imported_names_all(trees@.take(i as int)),
        decreases trees.len() - i,
    {
        extract_use_paths(&trees[i], deps);
        assert(trees@.take(i + 1).drop_last() =~= trees@.take(i as int));
        assert(deps.deep_view() =~= old(deps).deep_view() + imported_names_all(
            trees@.take(i + 1),
        ));
        i += 1;
    }
    assert(trees@.take(i as int) =~= trees@);
}

/// What walking `node` adds to the dependency map: every import
/// declaration adds the names it brings in, under the file's path.
pub open spec fn imports_in(node: Node, file: Seq<char>) -> Seq<(Seq<char>, Seq<Seq<char>>)>
    decreases node,
{
    match node {
        Node::Ident(_) => Seq::empty(),
        Node::Path { segments } => imports_in_all(segments@, file),
        Node::Segment { arguments, .. } => imports_in_all(arguments@, file),
        Node::TypePath { qualifier, path } => {
            imports_in_all(qualifier@, file)
                + imports_in(*path, file)
        },
        Node::ExprPath { qualifier, path } => {
            imports_in_all(qualifier@, file)
                + imports_in(*path, file)
        },
        Node::Function { leading, generics, params, output, body, .. } => {
            imports_in_all(leading@, file)
                + imports_in_all(generics@, file)
                + imports_in_all(params@, file)
                + imports_in_all(output@, file)
                + imports_in_all(body@, file)
        },
        Node::Struct { leading, generics, fields, .. } => {
            imports_in_all(leading@, file)
                + imports_in_all(generics@, file)
                + imports_in_all(fields@, file)
        },
        Node::Enum { leading, generics, variants, .. } => {
            imports_in_all(leading@, file)
                + imports_in_all(generics@, file)
                + imports_in_all(variants@, file)
        },
        Node::Trait { leading, members, .. } => {
            imports_in_all(leading@, file)
                + imports_in_all(members@, file)
        },
        Node::Use { leading, tree } => {
            seq![(file, imported_names(*tree))]
                + imports_in_all(leading@, file)
                + imports_in(*tree, file)
        },
        Node::UsePath { tree, .. } => imports_in(*tree, file),
        Node::UseName { .. } => Seq::empty(),
        Node::UseRename { .. } => Seq::empty(),
        Node::UseGlob => Seq::empty(),
        Node::UseGroup { items } => imports_in_all(items@, file),
        Node::Call { leading, callee, args } => {
            imports_in_all(leading@, file)
                + imports_in(*callee, file)
                + imports_in_all(args@, file)
        },
        Node::MethodCall { leading, receiver, generics, args, .. } => {
            imports_in_all(leading@, file)
                + imports_in(*receiver, file)
                + imports_in_all(generics@, file)
                + imports_in_all(args@, file)
        },
        Node::Branch { children, .. } => imports_in_all(children@, file),
        Node::Block { leading, statements } => {
            imports_in_all(leading@, file)
                + imports_in_all(statements@, file)
        },
        Node::Local { pattern, init, else_branch } => {
            imports_in_all(pattern@, file)
                + (match init {
                    Some(value) => imports_in(*value, file),
                    None => Seq::empty(),
                })
                + imports_in_all(else_branch@, file)
        },
        Node::Other { children } => imports_in_all(children@, file),
    }
}

/// What walking `nodes` adds to the dependency map, node after node.
pub open spec fn imports_in_all(nodes: Seq<Node>, file: Seq<char>)
    -> Seq<(Seq<char>, Seq<Seq<char>>)>
    decreases nodes,
{
    if nodes.len() == 0 {
        Seq::empty()
    } else {
        imports_in_all(nodes.drop_last(), file) + imports_in(nodes.last(), file)
    }
}

fn note_import(tree: &Node, file: &String, imports: &mut Vec<(String, Vec<String>)>)
    ensures
        final(imports).deep_view() == old(imports).deep_view().push(
            (file@, imported_names(*tree)),
        ),
{
    let mut deps: Vec<String> = Vec::new();
    assert(deps.deep_view() =~= Seq::<Seq<char>>::empty());
    extract_use_paths(tree, &mut deps);
    assert(deps.deep_view() =~= imported_names(*tree));
    imports.push((file.clone(), deps));
    assert(imports.deep_view() =~= old(imports).deep_view().push((file@, imported_names(*tree))));
}

/// Appends what walking `node` adds to the dependency map.
fn walk(node: &Node, file: &String, imports: &mut Vec<(String, Vec<String>)>)
    ensures
        final(imports).deep_view() == old(imports).deep_view() + imports_in(*node, file@),
    decreases node,
{
    match node {
        Node::Ident(_) => {},
        Node::Path { segments } => {
            walk_all(segments, file, imports);
        },
        Node::Segment { arguments, .. } => {
            walk_all(arguments, file, imports);
        },
        Node::TypePath { qualifier, path } => {
            walk_all(qualifier, file, imports);
            walk(path, file, imports);
        },
        Node::ExprPath { qualifier, path } => {
            walk_all(qualifier, file, imports);
            walk(path, file, imports);
        },
        Node::Function { leading, generics, params, output, body, .. } => {
            walk_all(leading, file, imports);
            walk_all(generics, file, imports);
            walk_all(params, file, imports);
            walk_all(output, file, imports);
            walk_all(body, file, imports);
        },
        Node::Struct { leading, generics, fields, .. } => {
            walk_all(leading, file, imports);
            walk_all(generics, file, imports);
            walk_all(fields, file, imports);
        },
        Node::Enum { leading, generics, variants, .. } => {
            walk_all(leading, file, imports);
            walk_all(generics, file, imports);
            walk_all(variants, file, imports);
        },
        Node::Trait { leading, members, .. } => {
            walk_all(leading, file, imports);
            walk_all(members, file, imports);
        },
        Node::Use { leading, tree } => {
            note_import(tree, file, imports);
            walk_all(leading, file, imports);
            walk(tree, file, imports);
        },
        Node::UsePath { tree, .. } => {
            walk(tree, file, imports);
        },
        Node::UseName { .. } => {},
        Node::UseRename { .. } => {},
        Node::UseGlob => {},
        Node::UseGroup { items } => {
            walk_all(items, file, imports);
        },
        Node::Call { leading, callee, args } => {
            walk_all(leading, file, imports);
            walk(callee, file, imports);
            walk_all(args, file, imports);
        },
        Node::MethodCall { leading, receiver, generics, args, .. } => {
            walk_all(leading, file, imports);
            walk(receiver, file, imports);
            walk_all(generics, file, imports);
            walk_all(args, file, imports);
        },
        Node::Branch { children, .. } => {
            walk_all(children, file, imports);
        },
        Node::Block { leading, statements } => {
            walk_all(leading, file, imports);
            walk_all(statements, file, imports);
        },
        Node::Local { pattern, init, else_branch } => {
            walk_all(pattern, file, imports);
            if let Some(value) = init {
                walk(value, file, imports);
            }
            walk_all(else_branch, file, imports);
        },
        Node::Other { children } => {
            walk_all(children, file, imports);
        },
    }
    assert(imports.deep_view() =~= old(imports).deep_view() + imports_in(*node, file@));
}

/// Appends what walking `nodes` adds to the dependency map, node after node.
fn walk_all(nodes: &Vec<Node>, file: &String, imports: &mut Vec<(String, Vec<String>)>)
    ensures
        final(imports).deep_view() == old(imports).deep_view() + imports_in_all(nodes@, file@),
    decreases nodes,
{
    let mut i: usize = 0;
    assert(nodes@.take(0) =~= Seq::<Node>::empty());
    assert(imports.deep_view() =~= old(imports).deep_view() + imports_in_all(
        nodes@.take(0),
        file@,
    ));
    while i < nodes.len()
        invariant
            i <= nodes.len(),
            imports.deep_view() == old(imports).deep_view() + imports_in_all(
                nodes@.take(i as int),
                file@,
            ),
        decreases nodes.len() - i,
    {
        walk(&nodes[i], file, imports);
        assert(nodes@.take(i + 1).drop_last() =~= nodes@.take(i as int));
        assert(imports.deep_view() =~= old(imports).deep_view() + imports_in_all(
            nodes@.take(i + 1),
            file@,
        ));
        i += 1;
    }
    assert(nodes@.take(i as int) =~= nodes@);
}

/// Gathers the imported names of the trees it visits under the path of the
/// file it is given.
pub struct ModuleDependencyCollector {
    pub file: String,
    pub dependencies: NameMap<Vec<String>>,
}

impl ModuleDependencyCollector {
    /// A collector for `file` that has gathered nothing.
    pub fn new(file: String) -> (collector: Self)
        ensures
            collector.file@ == file@,
            collector.dependencies@ == Seq::<(Seq<char>, Seq<Seq<char>>)>::empty(),
    {
        ModuleDependencyCollector { file, dependencies: NameMap::new() }
    }

    /// `after` is `before` with `imports` joined to its dependency map.
    pub open spec fn grew_by(
        before: &ModuleDependencyCollector,
        after: &ModuleDependencyCollector,
        imports: Seq<(Seq<char>, Seq<Seq<char>>)>,
    ) -> bool {
        &&& after.file@ == before.file@
        &&& after.dependencies@ == join_all(before.dependencies@, imports)
    }

    /// Walks `tree`.
    pub fn visit_file(&mut self, tree: &SyntaxTree)
        ensures
            Self::grew_by(old(self), final(self), imports_in_all(tree.nodes@, old(self).file@)),
    {
        self.visit_nodes(&tree.nodes);
    }

    /// Walks `node`.
    pub fn visit_node(&mut self, node: &Node)
        ensures
            Self::grew_by(old(self), final(self), imports_in(*node, old(self).file@)),
    {
        let mut imports = Vec::new();
        walk(node, &self.file, &mut imports);
        assert(imports.deep_view() =~= imports_in(*node, self.file@));
        self.dependencies.extend_all(imports);
    }

    /// Walks `nodes`.
    pub fn visit_nodes(&mut self, nodes: &Vec<Node>)
        ensures
            Self::grew_by(old(self), final(self), imports_in_all(nodes@, old(self).file@)),
    {
        let mut imports = Vec::new();
        walk_all(nodes, &self.file, &mut imports);
        assert(imports.deep_view() =~= imports_in_all(nodes@, self.file@));
        self.dependencies.extend_all(imports);
    }
}

} // verus!
