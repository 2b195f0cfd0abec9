//! The syntax tree that the collectors walk.
//!
//! A tree is a closed set of node kinds. The kinds that a collector reads
//! carry what it reads (names, spans, counted children); every other
//! construct is an `Other` node that only holds its children. The lists of a
//! node hold its children in source order, and a walk visits the parts of a
//! node in the order in which its variant names them.

use vstd::prelude::*;
use crate::models::Range;

verus! {

/// An identifier token: its text and where it stands.
#[derive(Debug)]
pub struct Ident {
    pub name: String,
    pub range: Range,
}

impl Clone for Ident {
    fn clone(&self) -> (copy: Self)
        ensures
            copy.name@ == self.name@,
            copy.range == self.range,
    {
        Ident { name: self.name.clone(), range: self.range }
    }
}

/// The constructs that add a path through a function.
#[derive(Debug, Clone, Copy, PartialEq, Eq)]
pub enum BranchKind {
    If,
    Match,
    Loop,
    While,
    For,
    And,
    Or,
}

/// How far a declaration is visible, as it is written.
#[derive(Debug, Clone, Copy, PartialEq, Eq)]
pub enum Visibility {
    /// `pub`.
    Public,
    /// `pub(crate)`, `pub(super)`, `pub(in path)` and the like.
    Restricted,
    /// Nothing written.
    Inherited,
}

#[derive(Debug)]
pub enum Node {
    /// An identifier that is not the name of one of the nodes below.
    Ident(Ident),
    /// A path such as `a::b::C<T>`; its segments are `Segment` nodes.
    Path { segments: Vec<Node> },
    /// One segment of a path, with its generic arguments.
    Segment { ident: Ident, arguments: Vec<Node> },
    /// A path in type position. `qualifier` holds what stands before the
    /// path proper, as in `<T as Tr>::Out`.
    TypePath { qualifier: Vec<Node>, path: Box<Node> },
    /// A path in expression position.
    ExprPath { qualifier: Vec<Node>, path: Box<Node> },
    /// A function declaration. `leading` holds its attributes and what its
    /// visibility is written with, `params` one node for each declared
    /// parameter (a receiver counts), `output` what follows the parameters
    /// in the signature, and `body` the statements.
    Function {
        leading: Vec<Node>,
        visibility: Visibility,
        name: Ident,
        generics: Vec<Node>,
        params: Vec<Node>,
        output: Vec<Node>,
        body: Vec<Node>,
    },
    /// A struct declaration, with one node for each field.
    Struct { leading: Vec<Node>, name: Ident, generics: Vec<Node>, fields: Vec<Node> },
    /// An enum declaration, with one node for each variant.
    Enum { leading: Vec<Node>, name: Ident, generics: Vec<Node>, variants: Vec<Node> },
    /// A trait declaration.
    Trait { leading: Vec<Node>, name: Ident, members: Vec<Node> },
    /// An import declaration; `tree` is one of the five import nodes.
    Use { leading: Vec<Node>, tree: Box<Node> },
    /// `ident::tree` inside an import.
    UsePath { ident: Ident, tree: Box<Node> },
    /// A name that ends an import.
    UseName { ident: Ident },
    /// `ident as alias` at the end of an import.
    UseRename { ident: Ident, alias: Ident },
    /// `*` at the end of an import.
    UseGlob,
    /// `{a, b, ..}` inside an import.
    UseGroup { items: Vec<Node> },
    /// A call `callee(args)`.
    Call { leading: Vec<Node>, callee: Box<Node>, args: Vec<Node> },
    /// A method call `receiver.method::<generics>(args)`.
    MethodCall {
        leading: Vec<Node>,
        receiver: Box<Node>,
        method: Ident,
        generics: Vec<Node>,
        args: Vec<Node>,
    },
    /// A conditional, a match, a loop, or a logical `&&` or `||`.
    Branch { kind: BranchKind, children: Vec<Node> },
    /// A block expression `{ .. }`; `leading` holds its attributes and label.
    Block { leading: Vec<Node>, statements: Vec<Node> },
    /// A local binding `let pattern = init else { .. };`.
    Local { pattern: Vec<Node>, init: Option<Box<Node>>, else_branch: Vec<Node> },
    /// Any other construct.
    Other { children: Vec<Node> },
}

/// The syntax tree of one file: its top-level nodes.
#[derive(Debug)]
pub struct SyntaxTree {
    pub nodes: Vec<Node>,
}

/// A file as the workspace operations take it: its path, its text, and
/// the tree of the text where the text parses.
#[derive(Debug)]
pub struct ParsedFile {
    pub path: String,
    pub source: String,
    pub tree: Option<SyntaxTree>,
}

impl Node {
    /// The identifier of the last segment, for a path whose last segment is
    /// a `Segment` node.
    pub open spec fn path_tail(self) -> Option<Ident> {
        match self {
            Node::Path { segments } => if segments.len() > 0 {
                match segments@.last() {
                    Node::Segment { ident, .. } => Some(ident),
                    _ => None,
                }
            } else {
                None
            },
            _ => None,
        }
    }

    pub fn tail(&self) -> (tail: Option<&Ident>)
        ensures
            match tail {
                Some(ident) => self.path_tail() == Some(*ident),
                None => self.path_tail() is None,
            },
    {
        match self {
            Node::Path { segments } => {
                if segments.len() > 0 {
                    match &segments[segments.len() - 1] {
                        Node::Segment { ident, .. } => Some(ident),
                        _ => None,
                    }
                } else {
                    None
                }
            },
            _ => None,
        }
    }
}

} // verus!
