//! The call graph of a tree and the measures of its functions.
//!
//! The walk carries the name of the function whose parts it is in. A nested
//! function is the caller of its own parts; after it the walk goes on with
//! the caller it had before.

use vstd::prelude::*;
use crate::models::{capped, FunctionInfo, FunctionInfoView};
use crate::name_map::{join_all, put_all, NameMap};
use crate::syntax::{BranchKind, Ident, Node, SyntaxTree, Visibility};

verus! {

/// What a statement, or the value of a local binding, adds to the
/// complexity of the function: one for a branch, and for a block expression
/// what its statements add. Nothing else is looked into.
pub open spec fn branch_count(node: Node) -> nat
    decreases node,
{
    match node {
        Node::Branch { .. } => 1,
        Node::Block { statements, .. } => branch_count_all(statements@),
        Node::Local { init: Some(value), .. } => branch_count(*value),
        _ => 0,
    }
}

/// What the statements `nodes` add to the complexity.
pub open spec fn branch_count_all(nodes: Seq<Node>) -> nat
    decreases nodes,
{
    if nodes.len() == 0 {
        0
    } else {
        branch_count_all(nodes.drop_last()) + branch_count(nodes.last())
    }
}

/// The complexity of a function with the statements `body`: one, and one
/// more for each branch counted in the body.
pub open spec fn complexity_of(body: Seq<Node>) -> nat {
    1 + branch_count_all(body)
}

/// The word for the visibility of a declaration: public where `pub` alone
/// is written, private for every other tier.
pub open spec fn visibility_word(visibility: Visibility) -> Seq<char> {
    match visibility {
        Visibility::Public => "public"@,
        _ => "private"@,
    }
}

/// The measures of the function declared with these parts.
pub open spec fn function_entry(
    name: Ident,
    visibility: Visibility,
    params: Seq<Node>,
    body: Seq<Node>,
    file: Seq<char>,
) -> FunctionInfoView {
    FunctionInfoView {
        name: name.name@,
        line_count: name.range.line_span() as usize,
        complexity: capped(complexity_of(body)),
        param_count: params.len() as usize,
        visibility: visibility_word(visibility),
        file,
        range: name.range,
    }
}

/// The name that a call of `callee` records: the last segment of the path,
/// where the callee is a path expression.
pub open spec fn callee_name(callee: Node) -> Option<Seq<char>> {
    match callee {
        Node::ExprPath { path, .. } => match path.path_tail() {
            Some(ident) => Some(ident.name@),
            None => None,
        },
        _ => None,
    }
}

/// One call site: `callee` added to the list of `caller`. Without a caller,
/// or without a callee name, nothing is added.
pub open spec fn edge(caller: Option<Seq<char>>, callee: Option<Seq<char>>) -> Seq<
    (Seq<char>, Seq<Seq<char>>),
> {
    match (caller, callee) {
        (Some(from), Some(to)) => seq![(from, seq![to])],
        _ => Seq::empty(),
    }
}

/// The caller as a sequence of characters.
pub open spec fn caller_view(caller: Option<&String>) -> Option<Seq<char>> {
    match caller {
        Some(name) => Some(name@),
        None => None,
    }
}

/// What walking `node` adds to the call map when `caller` is the function
/// being walked: a function declaration adds its name with no callee and
/// is the caller of its parts; a call of a path and a method call add one
/// callee to the caller, if there is one.
pub open spec fn calls_in(node: Node, caller: Option<Seq<char>>)
    -> Seq<(Seq<char>, Seq<Seq<char>>)>
    decreases node,
{
    match node {
        Node::Ident(_) => Seq::empty(),
        Node::Path { segments } => calls_in_all(segments@, caller),
        Node::Segment { arguments, .. } => calls_in_all(arguments@, caller),
        Node::TypePath { qualifier, path } => {
            calls_in_all(qualifier@, caller)
                + calls_in(*path, caller)
        },
        Node::ExprPath { qualifier, path } => {
            calls_in_all(qualifier@, caller)
                + calls_in(*path, caller)
        },
        Node::Function { leading, name, generics, params, output, body, .. } => {
            seq![(name.name@, Seq::empty())]
                + calls_in_all(leading@, Some(name.name@))
                + calls_in_all(generics@, Some(name.name@))
                + calls_in_all(params@, Some(name.name@))
                + calls_in_all(output@, Some(name.name@))
                + calls_in_all(body@, Some(name.name@))
        },
        Node::Struct { leading, generics, fields, .. } => {
            calls_in_all(leading@, caller)
                + calls_in_all(generics@, caller)
                + calls_in_all(fields@, caller)
        },
        Node::Enum { leading, generics, variants, .. } => {
            calls_in_all(leading@, caller)
                + calls_in_all(generics@, caller)
                + calls_in_all(variants@, caller)
        },
        Node::Trait { leading, members, .. } => {
            calls_in_all(leading@, caller)
                + calls_in_all(members@, caller)
        },
        Node::Use { leading, tree } => calls_in_all(leading@, caller) + calls_in(*tree, caller),
        Node::UsePath { tree, .. } => calls_in(*tree, caller),
        Node::UseName { .. } => Seq::empty(),
        Node::UseRename { .. } => Seq::empty(),
        Node::UseGlob => Seq::empty(),
        Node::UseGroup { items } => calls_in_all(items@, caller),
        Node::Call { leading, callee, args } => {
            edge(caller, callee_name(*callee))
                + calls_in_all(leading@, caller)
                + calls_in(*callee, caller)
                + calls_in_all(args@, caller)
        },
        Node::MethodCall { leading, receiver, method, generics, args } => {
            edge(caller, Some(method.name@))
                + calls_in_all(leading@, caller)
                + calls_in(*receiver, caller)
                + calls_in_all(generics@, caller)
                + calls_in_all(args@, caller)
        },
        Node::Branch { children, .. } => calls_in_all(children@, caller),
        Node::Block { leading, statements } => {
            calls_in_all(leading@, caller)
                + calls_in_all(statements@, caller)
        },
        Node::Local { pattern, init, else_branch } => {
            calls_in_all(pattern@, caller)
                + (match init {
                    Some(value) => calls_in(*value, caller),
                    None => Seq::empty(),
                })
                + calls_in_all(else_branch@, caller)
        },
        Node::Other { children } => calls_in_all(children@, caller),
    }
}

/// What walking `nodes` adds to the call map, node after node.
pub open spec fn calls_in_all(nodes: Seq<Node>, caller: Option<Seq<char>>)
    -> Seq<(Seq<char>, Seq<Seq<char>>)>
    decreases nodes,
{
    if nodes.len() == 0 {
        Seq::empty()
    } else {
        calls_in_all(nodes.drop_last(), caller) + calls_in(nodes.last(), caller)
    }
}

/// The measures of the functions declared in `node`, each under its name, a
/// function before those nested in it.
pub open spec fn declared_in(node: Node, file: Seq<char>) -> Seq<(Seq<char>, FunctionInfoView)>
    decreases node,
{
    match node {
        Node::Ident(_) => Seq::empty(),
        Node::Path { segments } => declared_in_all(segments@, file),
        Node::Segment { arguments, .. } => declared_in_all(arguments@, file),
        Node::TypePath { qualifier, path } => {
            declared_in_all(qualifier@, file)
                + declared_in(*path, file)
        },
        Node::ExprPath { qualifier, path } => {
            declared_in_all(qualifier@, file)
                + declared_in(*path, file)
        },
        Node::Function { leading, visibility, name, generics, params, output, body } => {
            seq![(name.name@, function_entry(name, visibility, params@, body@, file))]
                + declared_in_all(leading@, file)
                + declared_in_all(generics@, file)
                + declared_in_all(params@, file)
                + declared_in_all(output@, file)
                + declared_in_all(body@, file)
        },
        Node::Struct { leading, generics, fields, .. } => {
            declared_in_all(leading@, file)
                + declared_in_all(generics@, file)
                + declared_in_all(fields@, file)
        },
        Node::Enum { leading, generics, variants, .. } => {
            declared_in_all(leading@, file)
                + declared_in_all(generics@, file)
                + declared_in_all(variants@, file)
        },
        Node::Trait { leading, members, .. } => {
            declared_in_all(leading@, file)
                + declared_in_all(members@, file)
        },
        Node::Use { leading, tree } => {
            declared_in_all(leading@, file)
                + declared_in(*tree, file)
        },
        Node::UsePath { tree, .. } => declared_in(*tree, file),
        Node::UseName { .. } => Seq::empty(),
        Node::UseRename { .. } => Seq::empty(),
        Node::UseGlob => Seq::empty(),
        Node::UseGroup { items } => declared_in_all(items@, file),
        Node::Call { leading, callee, args } => {
            declared_in_all(leading@, file)
                + declared_in(*callee, file)
                + declared_in_all(args@, file)
        },
        Node::MethodCall { leading, receiver, generics, args, .. } => {
            declared_in_all(leading@, file)
                + declared_in(*receiver, file)
                + declared_in_all(generics@, file)
                + declared_in_all(args@, file)
        },
        Node::Branch { children, .. } => declared_in_all(children@, file),
        Node::Block { leading, statements } => {
            declared_in_all(leading@, file)
                + declared_in_all(statements@, file)
        },
        Node::Local { pattern, init, else_branch } => {
            declared_in_all(pattern@, file)
                + (match init {
                    Some(value) => declared_in(*value, file),
                    None => Seq::empty(),
                })
                + declared_in_all(else_branch@, file)
        },
        Node::Other { children } => declared_in_all(children@, file),
    }
}

/// The measures of the functions declared in `nodes`, node after node.
pub open spec fn declared_in_all(nodes: Seq<Node>, file: Seq<char>)
    -> Seq<(Seq<char>, FunctionInfoView)>
    decreases nodes,
{
    if nodes.len() == 0 {
        Seq::empty()
    } else {
        declared_in_all(nodes.drop_last(), file) + declared_in(nodes.last(), file)
    }
}

/// Counts what `node` adds to the complexity, up to `usize::MAX`.
pub fn count_branches(node: &Node) -> (count: usize)
    ensures
        count == capped(branch_count(*node)),
    decreases node,
{
    match node {
        Node::Branch { .. } => 1,
        Node::Block { statements, .. } => count_branches_all(statements),
        Node::Local { init: Some(value), .. } => count_branches(value),
        _ => 0,
    }
}

/// Counts what `nodes` add to the complexity, up to `usize::MAX`.
pub fn count_branches_all(nodes: &Vec<Node>) -> (count: usize)
    ensures
        count == capped(branch_count_all(nodes@)),
    decreases nodes,
{
    let mut count: usize = 0;
    let mut i: usize = 0;
    assert(nodes@.take(0) =~= Seq::<Node>::empty());
    while i < nodes.len()
        invariant
            i <= nodes.len(),
            count == capped(branch_count_all(nodes@.take(i as int))),
        decreases nodes.len() - i,
    {
        let more = count_branches(&nodes[i]);
        assert(nodes@.take(i + 1).drop_last() =~= nodes@.take(i as int));
        count = count.saturating_add(more);
        i += 1;
    }
    assert(nodes@.take(i as int) =~= nodes@);
    count
}

fn declare(
    file: &String,
    name: &Ident,
    visibility: Visibility,
    params: &Vec<Node>,
    body: &Vec<Node>,
    calls: &mut Vec<(String, Vec<String>)>,
    declared: &mut Vec<(String, FunctionInfo)>,
)
    ensures
        final(calls).deep_view() == old(calls).deep_view().push(
            (name.name@, Seq::<Seq<char>>::empty()),
        ),
        final(declared).deep_view() == old(declared).deep_view().push(
            (name.name@, function_entry(*name, visibility, params@, body@, file@)),
        ),
{
    let word = match visibility {
        Visibility::Public => "public",
        _ => "private",
    };
    let info = FunctionInfo {
        name: name.name.clone(),
        line_count: name.range.line_count(),
        complexity: count_branches_all(body).saturating_add(1),
        param_count: params.len(),
        visibility: word.to_owned(),
        file: file.clone(),
        range: name.range,
    };
    let none: Vec<String> = Vec::new();
    assert(none.deep_view() =~= Seq::<Seq<char>>::empty());
    calls.push((name.name.clone(), none));
    declared.push((name.name.clone(), info));
    assert(calls.deep_view() =~= old(calls).deep_view().push(
        (name.name@, Seq::<Seq<char>>::empty()),
    ));
    assert(declared.deep_view() =~= old(declared).deep_view().push(
        (name.name@, function_entry(*name, visibility, params@, body@, file@)),
    ));
}

fn note_edge(
    caller: Option<&String>,
    callee: Option<&Ident>,
    calls: &mut Vec<(String, Vec<String>)>,
)
    ensures
        final(calls).deep_view() == old(calls).deep_view() + edge(
            caller_view(caller),
            match callee {
                Some(ident) => Some(ident.name@),
                None => None,
            },
        ),
{
    match (caller, callee) {
        (Some(from), Some(to)) => {
            let mut one: Vec<String> = Vec::new();
            one.push(to.name.clone());
            assert(one.deep_view() =~= seq![to.name@]);
            calls.push((from.clone(), one));
            assert(calls.deep_view() =~= old(calls).deep_view() + seq![(from@, seq![to.name@])]);
        },
        _ => {
            assert(calls.deep_view() =~= old(calls).deep_view() + Seq::<
                (Seq<char>, Seq<Seq<char>>),
            >::empty());
        },
    }
}

fn note_call(caller: Option<&String>, callee: &Node, calls: &mut Vec<(String, Vec<String>)>)
    ensures
        final(calls).deep_view() == old(calls).deep_view() + edge(
            caller_view(caller),
            callee_name(*callee),
        ),
{
    match callee {
        Node::ExprPath { path, .. } => note_edge(caller, path.tail(), calls),
        _ => note_edge(caller, None, calls),
    }
}

/// Appends what walking `node` adds to the call map and to the function
/// measures.
fn walk(
    node: &Node,
    file: &String,
    caller: Option<&String>,
    calls: &mut Vec<(String, Vec<String>)>,
    declared: &mut Vec<(String, FunctionInfo)>,
)
    ensures
        final(calls).deep_view() == old(calls).deep_view() + calls_in(*node, caller_view(caller)),
        final(declared).deep_view() == old(declared).deep_view() + declared_in(*node, file@),
    decreases node,
{
    match node {
        Node::Ident(_) => {},
        Node::Path { segments } => {
            walk_all(segments, file, caller, calls, declared);
        },
        Node::Segment { arguments, .. } => {
            walk_all(arguments, file, caller, calls, declared);
        },
        Node::TypePath { qualifier, path } => {
            walk_all(qualifier, file, caller, calls, declared);
            walk(path, file, caller, calls, declared);
        },
        Node::ExprPath { qualifier, path } => {
            walk_all(qualifier, file, caller, calls, declared);
            walk(path, file, caller, calls, declared);
        },
        Node::Function { leading, visibility, name, generics, params, output, body } => {
            declare(file, name, *visibility, params, body, calls, declared);
            walk_all(leading, file, Some(&name.name), calls, declared);
            walk_all(generics, file, Some(&name.name), calls, declared);
            walk_all(params, file, Some(&name.name), calls, declared);
            walk_all(output, file, Some(&name.name), calls, declared);
            walk_all(body, file, Some(&name.name), calls, declared);
        },
        Node::Struct { leading, generics, fields, .. } => {
            walk_all(leading, file, caller, calls, declared);
            walk_all(generics, file, caller, calls, declared);
            walk_all(fields, file, caller, calls, declared);
        },
        Node::Enum { leading, generics, variants, .. } => {
            walk_all(leading, file, caller, calls, declared);
            walk_all(generics, file, caller, calls, declared);
            walk_all(variants, file, caller, calls, declared);
        },
        Node::Trait { leading, members, .. } => {
            walk_all(leading, file, caller, calls, declared);
            walk_all(members, file, caller, calls, declared);
        },
        Node::Use { leading, tree } => {
            walk_all(leading, file, caller, calls, declared);
            walk(tree, file, caller, calls, declared);
        },
        Node::UsePath { tree, .. } => {
            walk(tree, file, caller, calls, declared);
        },
        Node::UseName { .. } => {},
        Node::UseRename { .. } => {},
        Node::UseGlob => {},
        Node::UseGroup { items } => {
            walk_all(items, file, caller, calls, declared);
        },
        Node::Call { leading, callee, args } => {
            note_call(caller, callee, calls);
            walk_all(leading, file, caller, calls, declared);
            walk(callee, file, caller, calls, declared);
            walk_all(args, file, caller, calls, declared);
        },
        Node::MethodCall { leading, receiver, method, generics, args } => {
            note_edge(caller, Some(method), calls);
            walk_all(leading, file, caller, calls, declared);
            walk(receiver, file, caller, calls, declared);
            walk_all(generics, file, caller, calls, declared);
            walk_all(args, file, caller, calls, declared);
        },
        Node::Branch { children, .. } => {
            walk_all(children, file, caller, calls, declared);
        },
        Node::Block { leading, statements } => {
            walk_all(leading, file, caller, calls, declared);
            walk_all(statements, file, caller, calls, declared);
        },
        Node::Local { pattern, init, else_branch } => {
            walk_all(pattern, file, caller, calls, declared);
            if let Some(value) = init {
                walk(value, file, caller, calls, declared);
            }
            walk_all(else_branch, file, caller, calls, declared);
        },
        Node::Other { children } => {
            walk_all(children, file, caller, calls, declared);
        },
    }
    assert(calls.deep_view() =~= old(calls).deep_view() + calls_in(*node, caller_view(caller)));
    assert(declared.deep_view() =~= old(declared).deep_view() + declared_in(*node, file@));
}

/// Appends what walking `nodes` adds, node after node.
fn walk_all(
    nodes: &Vec<Node>,
    file: &String,
    caller: Option<&String>,
    calls: &mut Vec<(String, Vec<String>)>,
    declared: &mut Vec<(String, FunctionInfo)>,
)
    ensures
        final(calls).deep_view() == old(calls).deep_view() + calls_in_all(
            nodes@,
            caller_view(caller),
        ),
        final(declared).deep_view() == old(declared).deep_view() + declared_in_all(nodes@, file@),
    decreases nodes,
{
    let ghost from = caller_view(caller);
    let mut i: usize = 0;
    assert(nodes@.take(0) =~= Seq::<Node>::empty());
    assert(calls.deep_view() =~= old(calls).deep_view() + calls_in_all(nodes@.take(0), from));
    assert(declared.deep_view() =~= old(declared).deep_view() + declared_in_all(
        nodes@.take(0),
        file@,
    ));
    while i < nodes.len()
        invariant
            i <= nodes.len(),
            from == caller_view(caller),
            calls.deep_view() == old(calls).deep_view() + calls_in_all(nodes@.take(i as int), from),
            declared.deep_view() == old(declared).deep_view() + declared_in_all(
                nodes@.take(i as int),
                file@,
            ),
        decreases nodes.len() - i,
    {
        walk(&nodes[i], file, caller, calls, declared);
        assert(nodes@.take(i + 1).drop_last() =~= nodes@.take(i as int));
        assert(calls.deep_view() =~= old(calls).deep_view() + calls_in_all(
            nodes@.take(i + 1),
            from,
        ));
        assert(declared.deep_view() =~= old(declared).deep_view() + declared_in_all(
            nodes@.take(i + 1),
            file@,
        ));
        i += 1;
    }
    assert(nodes@.take(i as int) =~= nodes@);
}

/// Gathers call edges and function measures from the trees it visits.
///
/// `current_function` is the caller at the point where a walk starts; a
/// walk leaves it as it found it.
pub struct CallGraphCollector {
    pub file: String,
    pub current_function: Option<String>,
    pub calls: NameMap<Vec<String>>,
    pub function_info: NameMap<FunctionInfo>,
}

impl CallGraphCollector {
    /// A collector for `file` that has gathered nothing and starts outside
    /// any function.
    pub fn new(file: String) -> (collector: Self)
        ensures
            collector.file@ == file@,
            collector.current_function is None,
            collector.calls@ == Seq::<(Seq<char>, Seq<Seq<char>>)>::empty(),
            collector.function_info@ == Seq::<(Seq<char>, FunctionInfoView)>::empty(),
    {
        CallGraphCollector {
            file,
            current_function: None,
            calls: NameMap::new(),
            function_info: NameMap::new(),
        }
    }

    /// The caller at the start of a walk.
    pub open spec fn context(&self) -> Option<Seq<char>> {
        match self.current_function {
            Some(name) => Some(name@),
            None => None,
        }
    }

    /// `after` is `before` with `calls` joined to its call map and
    /// `declared` put into its function measures.
    pub open spec fn grew_by(
        before: &CallGraphCollector,
        after: &CallGraphCollector,
        calls: Seq<(Seq<char>, Seq<Seq<char>>)>,
        declared: Seq<(Seq<char>, FunctionInfoView)>,
    ) -> bool {
        &&& after.file@ == before.file@
        &&& after.context() == before.context()
        &&& after.calls@ == join_all(before.calls@, calls)
        &&& after.function_info@ == put_all(before.function_info@, declared)
    }

    fn gather(&mut self, calls: Vec<(String, Vec<String>)>, declared: Vec<(String, FunctionInfo)>)
        ensures
            Self::grew_by(old(self), final(self), calls.deep_view(), declared.deep_view()),
    {
        self.calls.extend_all(calls);
        self.function_info.insert_all(declared);
    }

    /// Walks `tree` from the caller `current_function`.
    pub fn visit_file(&mut self, tree: &SyntaxTree)
        ensures
            Self::grew_by(
                old(self),
                final(self),
                calls_in_all(tree.nodes@, old(self).context()),
                declared_in_all(tree.nodes@, old(self).file@),
            ),
    {
        let mut calls = Vec::new();
        let mut declared = Vec::new();
        let caller = self.current_function.as_ref();
        walk_all(&tree.nodes, &self.file, caller, &mut calls, &mut declared);
        assert(calls.deep_view() =~= calls_in_all(tree.nodes@, self.context()));
        assert(declared.deep_view() =~= declared_in_all(tree.nodes@, self.file@));
        self.gather(calls, declared);
    }

    /// Walks `node` with `caller` as the function being walked.
    pub fn visit_node(&mut self, node: &Node, caller: Option<&String>)
        ensures
            Self::grew_by(
                old(self),
                final(self),
                calls_in(*node, caller_view(caller)),
                declared_in(*node, old(self).file@),
            ),
    {
        let mut calls = Vec::new();
        let mut declared = Vec::new();
        walk(node, &self.file, caller, &mut calls, &mut declared);
        assert(calls.deep_view() =~= calls_in(*node, caller_view(caller)));
        assert(declared.deep_view() =~= declared_in(*node, self.file@));
        self.gather(calls, declared);
    }

    /// Walks `nodes` with `caller` as the function being walked.
    pub fn visit_nodes(&mut self, nodes: &Vec<Node>, caller: Option<&String>)
        ensures
            Self::grew_by(
                old(self),
                final(self),
                calls_in_all(nodes@, caller_view(caller)),
                declared_in_all(nodes@, old(self).file@),
            ),
    {
        let mut calls = Vec::new();
        let mut declared = Vec::new();
        walk_all(nodes, &self.file, caller, &mut calls, &mut declared);
        assert(calls.deep_view() =~= calls_in_all(nodes@, caller_view(caller)));
        assert(declared.deep_view() =~= declared_in_all(nodes@, self.file@));
        self.gather(calls, declared);
    }
}

/// What a concatenation of statements adds to the complexity is the sum of
/// what its parts add.
pub proof fn lemma_branch_count_concat(first: Seq<Node>, second: Seq<Node>)
    ensures
        branch_count_all(first + second) == branch_count_all(first) + branch_count_all(second),
    decreases second.len(),
{
    if second.len() == 0 {
        assert(first + second =~= first);
    } else {
        assert((first + second).drop_last() =~= first + second.drop_last());
        lemma_branch_count_concat(first, second.drop_last());
    }
}

/// A function whose statements add nothing has complexity one.
pub proof fn lemma_complexity_without_branches(body: Seq<Node>)
    requires
        forall|i: int| 0 <= i < body.len() ==> branch_count(#[trigger] body[i]) == 0,
    ensures
        complexity_of(body) == 1,
    decreases body.len(),
{
    if body.len() > 0 {
        lemma_complexity_without_branches(body.drop_last());
    }
}

/// One more conditional, match, loop or logical operator among the
/// statements of a function, wherever it stands, adds exactly one to the
/// complexity.
pub proof fn lemma_complexity_one_more(
    before: Seq<Node>,
    kind: BranchKind,
    children: Vec<Node>,
    after: Seq<Node>,
)
    ensures
        complexity_of(before + seq![Node::Branch { kind, children }] + after) == complexity_of(
            before + after,
        ) + 1,
{
    let branch = Node::Branch { kind, children };
    lemma_branch_count_concat(before + seq![branch], after);
    lemma_branch_count_concat(before, seq![branch]);
    lemma_branch_count_concat(before, after);
    assert(seq![branch].drop_last() =~= Seq::<Node>::empty());
    assert(branch_count_all(seq![branch]) == 1) by {
        reveal_with_fuel(branch_count_all, 2);
    }
}

} // verus!
