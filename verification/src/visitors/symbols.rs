//! Symbol declarations: every function, struct, enum and trait of a tree,
//! nested ones included, in the order of the walk.

use vstd::prelude::*;
use crate::models::{SymbolInfo, SymbolInfoView};
use crate::syntax::{Ident, Node, SyntaxTree};

verus! {

/// The symbol entry of a declaration of kind `kind` named by `name`.
pub open spec fn symbol(kind: Seq<char>, name: Ident, file: Seq<char>) -> SymbolInfoView {
    SymbolInfoView { name: name.name@, kind, range: name.range, file }
}

/// The symbols declared in `node`: a declaration's own symbol first, then
/// those nested in its parts.
pub open spec fn symbols_in(node: Node, file: Seq<char>) -> Seq<SymbolInfoView>
    decreases node,
{
    match node {
        Node::Ident(_) => Seq::empty(),
        Node::Path { segments } => symbols_in_all(segments@, file),
        Node::Segment { arguments, .. } => symbols_in_all(arguments@, file),
        Node::TypePath { qualifier, path } => {
            symbols_in_all(qualifier@, file)
                + symbols_in(*path, file)
        },
        Node::ExprPath { qualifier, path } => {
            symbols_in_all(qualifier@, file)
                + symbols_in(*path, file)
        },
        Node::Function { leading, name, generics, params, output, body, .. } => {
            seq![symbol("fn"@, name, file)]
                + symbols_in_all(leading@, file)
                + symbols_in_all(generics@, file)
                + symbols_in_all(params@, file)
                + symbols_in_all(output@, file)
                + symbols_in_all(body@, file)
        },
        Node::Struct { leading, name, generics, fields } => {
            seq![symbol("struct"@, name, file)]
                + symbols_in_all(leading@, file)
                + symbols_in_all(generics@, file)
                + symbols_in_all(fields@, file)
        },
        Node::Enum { leading, name, generics, variants } => {
            seq![symbol("enum"@, name, file)]
                + symbols_in_all(leading@, file)
                + symbols_in_all(generics@, file)
                + symbols_in_all(variants@, file)
        },
        Node::Trait { leading, name, members } => {
            seq![symbol("trait"@, name, file)]
                + symbols_in_all(leading@, file)
                + symbols_in_all(members@, file)
        },
        Node::Use { leading, tree } => symbols_in_all(leading@, file) + symbols_in(*tree, file),
        Node::UsePath { tree, .. } => symbols_in(*tree, file),
        Node::UseName { .. } => Seq::empty(),
        Node::UseRename { .. } => Seq::empty(),
        Node::UseGlob => Seq::empty(),
        Node::UseGroup { items } => symbols_in_all(items@, file),
        Node::Call { leading, callee, args } => {
            symbols_in_all(leading@, file)
                + symbols_in(*callee, file)
                + symbols_in_all(args@, file)
        },
        Node::MethodCall { leading, receiver, generics, args, .. } => {
            symbols_in_all(leading@, file)
                + symbols_in(*receiver, file)
                + symbols_in_all(generics@, file)
                + symbols_in_all(args@, file)
        },
        Node::Branch { children, .. } => symbols_in_all(children@, file),
        Node::Block { leading, statements } => {
            symbols_in_all(leading@, file)
                + symbols_in_all(statements@, file)
        },
        Node::Local { pattern, init, else_branch } => {
            symbols_in_all(pattern@, file)
                + (match init {
                    Some(value) => symbols_in(*value, file),
                    None => Seq::empty(),
                })
                + symbols_in_all(else_branch@, file)
        },
        Node::Other { children } => symbols_in_all(children@, file),
    }
}

/// The symbols declared in `nodes`, node after node.
pub open spec fn symbols_in_all(nodes: Seq<Node>, file: Seq<char>) -> Seq<SymbolInfoView>
    decreases nodes,
{
    if nodes.len() == 0 {
        Seq::empty()
    } else {
        symbols_in_all(nodes.drop_last(), file) + symbols_in(nodes.last(), file)
    }
}

fn record(kind: &str, name: &Ident, file: &String, out: &mut Vec<SymbolInfo>)
    ensures
        final(out).deep_view() == old(out).deep_view().push(symbol(kind@, *name, file@)),
{
    let entry = SymbolInfo {
        name: name.name.clone(),
        kind: kind.to_owned(),
        range: name.range,
        file: file.clone(),
    };
    out.push(entry);
    assert(out.deep_view() =~= old(out).deep_view().push(symbol(kind@, *name, file@)));
}

/// Appends the symbols of `node` to `out`.
fn walk(node: &Node, file: &String, out: &mut Vec<SymbolInfo>)
    ensures
        final(out).deep_view() == old(out).deep_view() + symbols_in(*node, file@),
    decreases node,
{
    match node {
        Node::Ident(_) => {},
        Node::Path { segments } => {
            walk_all(segments, file, out);
        },
        Node::Segment { arguments, .. } => {
            walk_all(arguments, file, out);
        },
        Node::TypePath { qualifier, path } => {
            walk_all(qualifier, file, out);
            walk(path, file, out);
        },
        Node::ExprPath { qualifier, path } => {
            walk_all(qualifier, file, out);
            walk(path, file, out);
        },
        Node::Function { leading, name, generics, params, output, body, .. } => {
            record("fn", name, file, out);
            walk_all(leading, file, out);
            walk_all(generics, file, out);
            walk_all(params, file, out);
            walk_all(output, file, out);
            walk_all(body, file, out);
        },
        Node::Struct { leading, name, generics, fields } => {
            record("struct", name, file, out);
            walk_all(leading, file, out);
            walk_all(generics, file, out);
            walk_all(fields, file, out);
        },
        Node::Enum { leading, name, generics, variants } => {
            record("enum", name, file, out);
            walk_all(leading, file, out);
            walk_all(generics, file, out);
            walk_all(variants, file, out);
        },
        Node::Trait { leading, name, members } => {
            record("trait", name, file, out);
            walk_all(leading, file, out);
            walk_all(members, file, out);
        },
        Node::Use { leading, tree } => {
            walk_all(leading, file, out);
            walk(tree, file, out);
        },
        Node::UsePath { tree, .. } => {
            walk(tree, file, out);
        },
        Node::UseName { .. } => {},
        Node::UseRename { .. } => {},
        Node::UseGlob => {},
        Node::UseGroup { items } => {
            walk_all(items, file, out);
        },
        Node::Call { leading, callee, args } => {
            walk_all(leading, file, out);
            walk(callee, file, out);
            walk_all(args, file, out);
        },
        Node::MethodCall { leading, receiver, generics, args, .. } => {
            walk_all(leading, file, out);
            walk(receiver, file, out);
            walk_all(generics, file, out);
            walk_all(args, file, out);
        },
        Node::Branch { children, .. } => {
            walk_all(children, file, out);
        },
        Node::Block { leading, statements } => {
            walk_all(leading, file, out);
            walk_all(statements, file, out);
        },
        Node::Local { pattern, init, else_branch } => {
            walk_all(pattern, file, out);
            if let Some(value) = init {
                walk(value, file, out);
            }
            walk_all(else_branch, file, out);
        },
        Node::Other { children } => {
            walk_all(children, file, out);
        },
    }
    assert(out.deep_view() =~= old(out).deep_view() + symbols_in(*node, file@));
}

/// Appends the symbols of `nodes` to `out`, node after node.
fn walk_all(nodes: &Vec<Node>, file: &String, out: &mut Vec<SymbolInfo>)
    ensures
        final(out).deep_view() == old(out).deep_view() + symbols_in_all(nodes@, file@),
    decreases nodes,
{
    let mut i: usize = 0;
    assert(out.deep_view() =~= old(out).deep_view() + symbols_in_all(nodes@.take(0), file@));
    while i < nodes.len()
        invariant
            i <= nodes.len(),
            out.deep_view() == old(out).deep_view() + symbols_in_all(nodes@.take(i as int), file@),
        decreases nodes.len() - i,
    {
        walk(&nodes[i], file, out);
        assert(nodes@.take(i + 1).drop_last() =~= nodes@.take(i as int));
        assert(out.deep_view() =~= old(out).deep_view() + symbols_in_all(
            nodes@.take(i + 1),
            file@,
        ));
        i += 1;
    }
    assert(nodes@.take(i as int) =~= nodes@);
}

/// Gathers the symbols of the trees it visits, for the file it is given.
pub struct SymbolCollector {
    pub file: String,
    pub out: Vec<SymbolInfo>,
}

impl SymbolCollector {
    /// A collector for `file` that has gathered nothing.
    pub fn new(file: String) -> (collector: Self)
        ensures
            collector.file@ == file@,
            collector.out@.len() == 0,
    {
        SymbolCollector { file, out: Vec::new() }
    }

    /// `after` is for the same file as `before` and has gathered `found` on
    /// top of what `before` had.
    pub open spec fn grew_by(
        before: &SymbolCollector,
        after: &SymbolCollector,
        found: Seq<SymbolInfoView>,
    ) -> bool {
        &&& after.file@ == before.file@
        &&& after.out.deep_view() == before.out.deep_view() + found
    }

    /// Appends the symbols of `tree` to `out`.
    pub fn visit_file(&mut self, tree: &SyntaxTree)
        ensures
            Self::grew_by(old(self), final(self), symbols_in_all(tree.nodes@, old(self).file@)),
    {
        walk_all(&tree.nodes, &self.file, &mut self.out);
    }

    /// Appends the symbols of `node` to `out`.
    pub fn visit_node(&mut self, node: &Node)
        ensures
            Self::grew_by(old(self), final(self), symbols_in(*node, old(self).file@)),
    {
        walk(node, &self.file, &mut self.out);
    }

    /// Appends the symbols of `nodes` to `out`.
    pub fn visit_nodes(&mut self, nodes: &Vec<Node>)
        ensures
            Self::grew_by(old(self), final(self), symbols_in_all(nodes@, old(self).file@)),
    {
        walk_all(nodes, &self.file, &mut self.out);
    }
}

/// Two walks of one tree by collectors that agree on the file and on what
/// they have gathered end with the same symbols in the same order.
pub proof fn lemma_walks_agree(
    first: SymbolCollector,
    second: SymbolCollector,
    first_after: SymbolCollector,
    second_after: SymbolCollector,
    tree: SyntaxTree,
)
    requires
        first.file@ == second.file@,
        first.out.deep_view() == second.out.deep_view(),
        SymbolCollector::grew_by(&first, &first_after, symbols_in_all(tree.nodes@, first.file@)),
        SymbolCollector::grew_by(
            &second,
            &second_after,
            symbols_in_all(tree.nodes@, second.file@),
        ),
    ensures
        first_after.out.deep_view() == second_after.out.deep_view(),
{
}

} // verus!
