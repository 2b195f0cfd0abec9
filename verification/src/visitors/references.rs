//! Lexical occurrences of a name: every identifier of a tree whose text is
//! the target, and the last segment of every type path whose text is the
//! target. The last segment of a type path is an identifier too, so such an
//! occurrence is reported by both rules.

use vstd::prelude::*;
use crate::models::{ReferenceLocation, ReferenceLocationView};
use crate::syntax::{Ident, Node, SyntaxTree};

verus! {

/// Where `ident` stands in `file`.
pub open spec fn location(ident: Ident, file: Seq<char>) -> ReferenceLocationView {
    ReferenceLocationView { file, range: ident.range }
}

/// The place of `ident` if its text is `target`, nothing otherwise.
pub open spec fn occurrence(ident: Ident, file: Seq<char>, target: Seq<char>) -> Seq<
    ReferenceLocationView,
> {
    if ident.name@ == target {
        seq![location(ident, file)]
    } else {
        Seq::empty()
    }
}

/// The place of the last segment of `path` if its text is `target`.
pub open spec fn tail_occurrence(path: Node, file: Seq<char>, target: Seq<char>) -> Seq<
    ReferenceLocationView,
> {
    match path.path_tail() {
        Some(ident) => occurrence(ident, file, target),
        None => Seq::empty(),
    }
}

/// The occurrences of `target` in `node`, in the order of the walk. A type
/// path reports its last segment before its parts are walked.
pub open spec fn references_in(node: Node, file: Seq<char>, target: Seq<char>)
    -> Seq<ReferenceLocationView>
    decreases node,
{
    match node {
        Node::Ident(ident) => occurrence(ident, file, target),
        Node::Path { segments } => references_in_all(segments@, file, target),
        Node::Segment { ident, arguments } => {
            occurrence(ident, file, target)
                + references_in_all(arguments@, file, target)
        },
        Node::TypePath { qualifier, path } => {
            tail_occurrence(*path, file, target)
                + references_in_all(qualifier@, file, target)
                + references_in(*path, file, target)
        },
        Node::ExprPath { qualifier, path } => {
            references_in_all(qualifier@, file, target)
                + references_in(*path, file, target)
        },
        Node::Function { leading, name, generics, params, output, body, .. } => {
            references_in_all(leading@, file, target)
                + occurrence(name, file, target)
                + references_in_all(generics@, file, target)
                + references_in_all(params@, file, target)
                + references_in_all(output@, file, target)
                + references_in_all(body@, file, target)
        },
        Node::Struct { leading, name, generics, fields } => {
            references_in_all(leading@, file, target)
                + occurrence(name, file, target)
                + references_in_all(generics@, file, target)
                + references_in_all(fields@, file, target)
        },
        Node::Enum { leading, name, generics, variants } => {
            references_in_all(leading@, file, target)
                + occurrence(name, file, target)
                + references_in_all(generics@, file, target)
                + references_in_all(variants@, file, target)
        },
        Node::Trait { leading, name, members } => {
            references_in_all(leading@, file, target)
                + occurrence(name, file, target)
                + references_in_all(members@, file, target)
        },
        Node::Use { leading, tree } => {
            references_in_all(leading@, file, target)
                + references_in(*tree, file, target)
        },
        Node::UsePath { ident, tree } => {
            occurrence(ident, file, target)
                + references_in(*tree, file, target)
        },
        Node::UseName { ident } => occurrence(ident, file, target),
        Node::UseRename { ident, alias } => {
            occurrence(ident, file, target)
                + occurrence(alias, file, target)
        },
        Node::UseGlob => Seq::empty(),
        Node::UseGroup { items } => references_in_all(items@, file, target),
        Node::Call { leading, callee, args } => {
            references_in_all(leading@, file, target)
                + references_in(*callee, file, target)
                + references_in_all(args@, file, target)
        },
        Node::MethodCall { leading, receiver, method, generics, args } => {
            references_in_all(leading@, file, target)
                + references_in(*receiver, file, target)
                + occurrence(method, file, target)
                + references_in_all(generics@, file, target)
                + references_in_all(args@, file, target)
        },
        Node::Branch { children, .. } => references_in_all(children@, file, target),
        Node::Block { leading, statements } => {
            references_in_all(leading@, file, target)
                + references_in_all(statements@, file, target)
        },
        Node::Local { pattern, init, else_branch } => {
            references_in_all(pattern@, file, target)
                + (match init {
                    Some(value) => references_in(*value, file, target),
                    None => Seq::empty(),
                })
                + references_in_all(else_branch@, file, target)
        },
        Node::Other { children } => references_in_all(children@, file, target),
    }
}

/// The occurrences of `target` in `nodes`, node after node.
pub open spec fn references_in_all(nodes: Seq<Node>, file: Seq<char>, target: Seq<char>)
    -> Seq<ReferenceLocationView>
    decreases nodes,
{
    if nodes.len() == 0 {
        Seq::empty()
    } else {
        references_in_all(nodes.drop_last(), file, target)
            + references_in(nodes.last(), file, target)
    }
}

fn note(ident: &Ident, file: &String, target: &String, matches: &mut Vec<ReferenceLocation>)
    ensures
        final(matches).deep_view() == old(matches).deep_view() + occurrence(
            *ident,
            file@,
            target@,
        ),
{
    if ident.name == *target {
        matches.push(ReferenceLocation { file: file.clone(), range: ident.range });
    }
    assert(matches.deep_view() =~= old(matches).deep_view() + occurrence(*ident, file@, target@));
}

fn note_tail(path: &Node, file: &String, target: &String, matches: &mut Vec<ReferenceLocation>)
    ensures
        final(matches).deep_view() == old(matches).deep_view() + tail_occurrence(
            *path,
            file@,
            target@,
        ),
{
    match path.tail() {
        Some(ident) => note(ident, file, target, matches),
        None => {
            assert(matches.deep_view() =~= old(matches).deep_view() + Seq::<
                ReferenceLocationView,
            >::empty());
        },
    }
}

/// Appends the occurrences of `target` in `node` to `matches`.
fn walk(node: &Node, file: &String, target: &String, matches: &mut Vec<ReferenceLocation>)
    ensures
        final(matches).deep_view() == old(matches).deep_view() + references_in(
            *node,
            file@,
            target@,
        ),
    decreases node,
{
    match node {
        Node::Ident(ident) => {
            note(ident, file, target, matches);
        },
        Node::Path { segments } => {
            walk_all(segments, file, target, matches);
        },
        Node::Segment { ident, arguments } => {
            note(ident, file, target, matches);
            walk_all(arguments, file, target, matches);
        },
        Node::TypePath { qualifier, path } => {
            note_tail(path, file, target, matches);
            walk_all(qualifier, file, target, matches);
            walk(path, file, target, matches);
        },
        Node::ExprPath { qualifier, path } => {
            walk_all(qualifier, file, target, matches);
            walk(path, file, target, matches);
        },
        Node::Function { leading, name, generics, params, output, body, .. } => {
            walk_all(leading, file, target, matches);
            note(name, file, target, matches);
            walk_all(generics, file, target, matches);
            walk_all(params, file, target, matches);
            walk_all(output, file, target, matches);
            walk_all(body, file, target, matches);
        },
        Node::Struct { leading, name, generics, fields } => {
            walk_all(leading, file, target, matches);
            note(name, file, target, matches);
            walk_all(generics, file, target, matches);
            walk_all(fields, file, target, matches);
        },
        Node::Enum { leading, name, generics, variants } => {
            walk_all(leading, file, target, matches);
            note(name, file, target, matches);
            walk_all(generics, file, target, matches);
            walk_all(variants, file, target, matches);
        },
        Node::Trait { leading, name, members } => {
            walk_all(leading, file, target, matches);
            note(name, file, target, matches);
            walk_all(members, file, target, matches);
        },
        Node::Use { leading, tree } => {
            walk_all(leading, file, target, matches);
            walk(tree, file, target, matches);
        },
        Node::UsePath { ident, tree } => {
            note(ident, file, target, matches);
            walk(tree, file, target, matches);
        },
        Node::UseName { ident } => {
            note(ident, file, target, matches);
        },
        Node::UseRename { ident, alias } => {
            note(ident, file, target, matches);
            note(alias, file, target, matches);
        },
        Node::UseGlob => {},
        Node::UseGroup { items } => {
            walk_all(items, file, target, matches);
        },
        Node::Call { leading, callee, args } => {
            walk_all(leading, file, target, matches);
            walk(callee, file, target, matches);
            walk_all(args, file, target, matches);
        },
        Node::MethodCall { leading, receiver, method, generics, args } => {
            walk_all(leading, file, target, matches);
            walk(receiver, file, target, matches);
            note(method, file, target, matches);
            walk_all(generics, file, target, matches);
            walk_all(args, file, target, matches);
        },
        Node::Branch { children, .. } => {
            walk_all(children, file, target, matches);
        },
        Node::Block { leading, statements } => {
            walk_all(leading, file, target, matches);
            walk_all(statements, file, target, matches);
        },
        Node::Local { pattern, init, else_branch } => {
            walk_all(pattern, file, target, matches);
            if let Some(value) = init {
                walk(value, file, target, matches);
            }
            walk_all(else_branch, file, target, matches);
        },
        Node::Other { children } => {
            walk_all(children, file, target, matches);
        },
    }
    assert(matches.deep_view() =~= old(matches).deep_view() + references_in(
        *node,
        file@,
        target@,
    ));
}

/// Appends the occurrences of `target` in `nodes` to `matches`.
fn walk_all(nodes: &Vec<Node>, file: &String, target: &String, matches: &mut Vec<ReferenceLocation>)
    ensures
        final(matches).deep_view() == old(matches).deep_view() + references_in_all(
            nodes@,
            file@,
            target@,
        ),
    decreases nodes,
{
    let mut i: usize = 0;
    assert(matches.deep_view() =~= old(matches).deep_view() + references_in_all(
        nodes@.take(0),
        file@,
        target@,
    ));
    while i < nodes.len()
        invariant
            i <= nodes.len(),
            matches.deep_view() == old(matches).deep_view() + references_in_all(
                nodes@.take(i as int),
                file@,
                target@,
            ),
        decreases nodes.len() - i,
    {
        walk(&nodes[i], file, target, matches);
        assert(nodes@.take(i + 1).drop_last() =~= nodes@.take(i as int));
        assert(matches.deep_view() =~= old(matches).deep_view() + references_in_all(
            nodes@.take(i + 1),
            file@,
            target@,
        ));
        i += 1;
    }
    assert(nodes@.take(i as int) =~= nodes@);
}

/// Gathers the occurrences of `target_name` in the trees it visits.
pub struct ReferenceFinder {
    pub target_name: String,
    pub file: String,
    pub matches: Vec<ReferenceLocation>,
}

impl ReferenceFinder {
    /// A finder of `target_name` in `file` that has found nothing.
    pub fn new(target_name: String, file: String) -> (finder: Self)
        ensures
            finder.target_name@ == target_name@,
            finder.file@ == file@,
            finder.matches@.len() == 0,
    {
        ReferenceFinder { target_name, file, matches: Vec::new() }
    }

    /// `before` and `after` name the same target and file, and `after` has
    /// found `found` on top of what `before` had.
    pub open spec fn grew_by(
        before: &ReferenceFinder,
        after: &ReferenceFinder,
        found: Seq<ReferenceLocationView>,
    ) -> bool {
        &&& after.target_name@ == before.target_name@
        &&& after.file@ == before.file@
        &&& after.matches.deep_view() == before.matches.deep_view() + found
    }

    /// Appends the occurrences in `tree` to `matches`.
    pub fn visit_file(&mut self, tree: &SyntaxTree)
        ensures
            Self::grew_by(
                old(self),
                final(self),
                references_in_all(tree.nodes@, old(self).file@, old(self).target_name@),
            ),
    {
        walk_all(&tree.nodes, &self.file, &self.target_name, &mut self.matches);
    }

    /// Appends the occurrences in `node` to `matches`.
    pub fn visit_node(&mut self, node: &Node)
        ensures
            Self::grew_by(
                old(self),
                final(self),
                references_in(*node, old(self).file@, old(self).target_name@),
            ),
    {
        walk(node, &self.file, &self.target_name, &mut self.matches);
    }

    /// Appends the occurrences in `nodes` to `matches`.
    pub fn visit_nodes(&mut self, nodes: &Vec<Node>)
        ensures
            Self::grew_by(
                old(self),
                final(self),
                references_in_all(nodes@, old(self).file@, old(self).target_name@),
            ),
    {
        walk_all(nodes, &self.file, &self.target_name, &mut self.matches);
    }
}

/// A type path whose last segment is named `target` reports that segment
/// twice: first as a type path, and once more where the walk of the path
/// meets the segment's identifier. Everything else in the result comes from
/// the other parts of the node.
pub proof fn lemma_type_path_reported_twice(
    qualifier: Vec<Node>,
    segments: Vec<Node>,
    ident: Ident,
    arguments: Vec<Node>,
    file: Seq<char>,
    target: Seq<char>,
)
    requires
        segments.len() > 0,
        segments@.last() == (Node::Segment { ident, arguments }),
        ident.name@ == target,
    ensures
        references_in(
            Node::TypePath { qualifier, path: Box::new(Node::Path { segments }) },
            file,
            target,
        ) == seq![location(ident, file)] + references_in_all(qualifier@, file, target)
            + references_in_all(segments@.drop_last(), file, target) + seq![location(ident, file)]
            + references_in_all(arguments@, file, target),
{
    let path = Node::Path { segments };
    let last = segments@.last();
    assert(path.path_tail() == Some(ident));
    assert(references_in(path, file, target) == references_in_all(segments@, file, target));
    assert(references_in_all(segments@, file, target) == references_in_all(
        segments@.drop_last(),
        file,
        target,
    ) + references_in(last, file, target));
    assert(references_in(last, file, target) == occurrence(ident, file, target)
        + references_in_all(arguments@, file, target));
    assert(references_in(path, file, target) =~= references_in_all(
        segments@.drop_last(),
        file,
        target,
    ) + seq![location(ident, file)] + references_in_all(arguments@, file, target));
    assert(references_in(Node::TypePath { qualifier, path: Box::new(path) }, file, target)
        =~= seq![location(ident, file)] + references_in_all(qualifier@, file, target)
        + references_in_all(segments@.drop_last(), file, target) + seq![location(ident, file)]
        + references_in_all(arguments@, file, target));
}

} // verus!
