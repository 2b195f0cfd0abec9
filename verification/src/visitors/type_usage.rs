//! Struct and enum declarations of a tree, and where type names are used.

use vstd::prelude::*;
use crate::models::{
    EnumInfo, EnumInfoView, ReferenceLocation, ReferenceLocationView, StructInfo, StructInfoView,
};
use crate::name_map::{join_all, put_all, NameMap};
use crate::syntax::{Ident, Node, SyntaxTree};
use crate::visitors::references::location;

verus! {

/// The usage that the path `path` records: the place of its last segment,
/// under that segment's name.
pub open spec fn usage_of(path: Node, file: Seq<char>) -> Seq<
    (Seq<char>, Seq<ReferenceLocationView>),
> {
    match path.path_tail() {
        Some(ident) => seq![(ident.name@, seq![location(ident, file)])],
        None => Seq::empty(),
    }
}

/// The entry of a struct named by `name` with the fields `fields`.
pub open spec fn struct_entry(name: Ident, fields: Seq<Node>, file: Seq<char>) -> StructInfoView {
    StructInfoView { name: name.name@, field_count: fields.len() as usize, file, range: name.range }
}

/// The entry of an enum named by `name` with the variants `variants`.
pub open spec fn enum_entry(name: Ident, variants: Seq<Node>, file: Seq<char>) -> EnumInfoView {
    EnumInfoView {
        name: name.name@,
        variant_count: variants.len() as usize,
        file,
        range: name.range,
    }
}

/// What walking `node` adds to the usage index: a type path adds the place
/// of its last segment under that segment's name, and so does every path;
/// the path inside a type path is a path too.
pub open spec fn usages_in(node: Node, file: Seq<char>)
    -> Seq<(Seq<char>, Seq<ReferenceLocationView>)>
    decreases node,
{
    match node {
        Node::Ident(_) => Seq::empty(),
        Node::Path { segments } => usage_of(node, file) + usages_in_all(segments@, file),
        Node::Segment { arguments, .. } => usages_in_all(arguments@, file),
        Node::TypePath { qualifier, path } => {
            usage_of(*path, file)
                + usages_in_all(qualifier@, file)
                + usages_in(*path, file)
        },
        Node::ExprPath { qualifier, path } => {
            usages_in_all(qualifier@, file)
                + usages_in(*path, file)
        },
        Node::Function { leading, generics, params, output, body, .. } => {
            usages_in_all(leading@, file)
                + usages_in_all(generics@, file)
                + usages_in_all(params@, file)
                + usages_in_all(output@, file)
                + usages_in_all(body@, file)
        },
        Node::Struct { leading, generics, fields, .. } => {
            usages_in_all(leading@, file)
                + usages_in_all(generics@, file)
                + usages_in_all(fields@, file)
        },
        Node::Enum { leading, generics, variants, .. } => {
            usages_in_all(leading@, file)
                + usages_in_all(generics@, file)
                + usages_in_all(variants@, file)
        },
        Node::Trait { leading, members, .. } => {
            usages_in_all(leading@, file)
                + usages_in_all(members@, file)
        },
        Node::Use { leading, tree } => usages_in_all(leading@, file) + usages_in(*tree, file),
        Node::UsePath { tree, .. } => usages_in(*tree, file),
        Node::UseName { .. } => Seq::empty(),
        Node::UseRename { .. } => Seq::empty(),
        Node::UseGlob => Seq::empty(),
        Node::UseGroup { items } => usages_in_all(items@, file),
        Node::Call { leading, callee, args } => {
            usages_in_all(leading@, file)
                + usages_in(*callee, file)
                + usages_in_all(args@, file)
        },
        Node::MethodCall { leading, receiver, generics, args, .. } => {
            usages_in_all(leading@, file)
                + usages_in(*receiver, file)
                + usages_in_all(generics@, file)
                + usages_in_all(args@, file)
        },
        Node::Branch { children, .. } => usages_in_all(children@, file),
        Node::Block { leading, statements } => {
            usages_in_all(leading@, file)
                + usages_in_all(statements@, file)
        },
        Node::Local { pattern, init, else_branch } => {
            usages_in_all(pattern@, file)
                + (match init {
                    Some(value) => usages_in(*value, file),
                    None => Seq::empty(),
                })
                + usages_in_all(else_branch@, file)
        },
        Node::Other { children } => usages_in_all(children@, file),
    }
}

/// What walking `nodes` adds to the usage index, node after node.
pub open spec fn usages_in_all(nodes: Seq<Node>, file: Seq<char>)
    -> Seq<(Seq<char>, Seq<ReferenceLocationView>)>
    decreases nodes,
{
    if nodes.len() == 0 {
        Seq::empty()
    } else {
        usages_in_all(nodes.drop_last(), file) + usages_in(nodes.last(), file)
    }
}

/// The structs declared in `node`, each under its name, a struct before
/// those nested in it.
pub open spec fn structs_in(node: Node, file: Seq<char>) -> Seq<(Seq<char>, StructInfoView)>
    decreases node,
{
    match node {
        Node::Ident(_) => Seq::empty(),
        Node::Path { segments } => structs_in_all(segments@, file),
        Node::Segment { arguments, .. } => structs_in_all(arguments@, file),
        Node::TypePath { qualifier, path } => {
            structs_in_all(qualifier@, file)
                + structs_in(*path, file)
        },
        Node::ExprPath { qualifier, path } => {
            structs_in_all(qualifier@, file)
                + structs_in(*path, file)
        },
        Node::Function { leading, generics, params, output, body, .. } => {
            structs_in_all(leading@, file)
                + structs_in_all(generics@, file)
                + structs_in_all(params@, file)
                + structs_in_all(output@, file)
                + structs_in_all(body@, file)
        },
        Node::Struct { leading, name, generics, fields } => {
            seq![(name.name@, struct_entry(name, fields@, file))]
                + structs_in_all(leading@, file)
                + structs_in_all(generics@, file)
                + structs_in_all(fields@, file)
        },
        Node::Enum { leading, generics, variants, .. } => {
            structs_in_all(leading@, file)
                + structs_in_all(generics@, file)
                + structs_in_all(variants@, file)
        },
        Node::Trait { leading, members, .. } => {
            structs_in_all(leading@, file)
                + structs_in_all(members@, file)
        },
        Node::Use { leading, tree } => structs_in_all(leading@, file) + structs_in(*tree, file),
        Node::UsePath { tree, .. } => structs_in(*tree, file),
        Node::UseName { .. } => Seq::empty(),
        Node::UseRename { .. } => Seq::empty(),
        Node::UseGlob => Seq::empty(),
        Node::UseGroup { items } => structs_in_all(items@, file),
        Node::Call { leading, callee, args } => {
            structs_in_all(leading@, file)
                + structs_in(*callee, file)
                + structs_in_all(args@, file)
        },
        Node::MethodCall { leading, receiver, generics, args, .. } => {
            structs_in_all(leading@, file)
                + structs_in(*receiver, file)
                + structs_in_all(generics@, file)
                + structs_in_all(args@, file)
        },
        Node::Branch { children, .. } => structs_in_all(children@, file),
        Node::Block { leading, statements } => {
            structs_in_all(leading@, file)
                + structs_in_all(statements@, file)
        },
        Node::Local { pattern, init, else_branch } => {
            structs_in_all(pattern@, file)
                + (match init {
                    Some(value) => structs_in(*value, file),
                    None => Seq::empty(),
                })
                + structs_in_all(else_branch@, file)
        },
        Node::Other { children } => structs_in_all(children@, file),
    }
}

/// The structs declared in `nodes`, node after node.
pub open spec fn structs_in_all(nodes: Seq<Node>, file: Seq<char>)
    -> Seq<(Seq<char>, StructInfoView)>
    decreases nodes,
{
    if nodes.len() == 0 {
        Seq::empty()
    } else {
        structs_in_all(nodes.drop_last(), file) + structs_in(nodes.last(), file)
    }
}

/// The enums declared in `node`, each under its name, an enum before those
/// nested in it.
pub open spec fn enums_in(node: Node, file: Seq<char>) -> Seq<(Seq<char>, EnumInfoView)>
    decreases node,
{
    match node {
        Node::Ident(_) => Seq::empty(),
        Node::Path { segments } => enums_in_all(segments@, file),
        Node::Segment { arguments, .. } => enums_in_all(arguments@, file),
        Node::TypePath { qualifier, path } => {
            enums_in_all(qualifier@, file)
                + enums_in(*path, file)
        },
        Node::ExprPath { qualifier, path } => {
            enums_in_all(qualifier@, file)
                + enums_in(*path, file)
        },
        Node::Function { leading, generics, params, output, body, .. } => {
            enums_in_all(leading@, file)
                + enums_in_all(generics@, file)
                + enums_in_all(params@, file)
                + enums_in_all(output@, file)
                + enums_in_all(body@, file)
        },
        Node::Struct { leading, generics, fields, .. } => {
            enums_in_all(leading@, file)
                + enums_in_all(generics@, file)
                + enums_in_all(fields@, file)
        },
        Node::Enum { leading, name, generics, variants } => {
            seq![(name.name@, enum_entry(name, variants@, file))]
                + enums_in_all(leading@, file)
                + enums_in_all(generics@, file)
                + enums_in_all(variants@, file)
        },
        Node::Trait { leading, members, .. } => {
            enums_in_all(leading@, file)
                + enums_in_all(members@, file)
        },
        Node::Use { leading, tree } => enums_in_all(leading@, file) + enums_in(*tree, file),
        Node::UsePath { tree, .. } => enums_in(*tree, file),
        Node::UseName { .. } => Seq::empty(),
        Node::UseRename { .. } => Seq::empty(),
        Node::UseGlob => Seq::empty(),
        Node::UseGroup { items } => enums_in_all(items@, file),
        Node::Call { leading, callee, args } => {
            enums_in_all(leading@, file)
                + enums_in(*callee, file)
                + enums_in_all(args@, file)
        },
        Node::MethodCall { leading, receiver, generics, args, .. } => {
            enums_in_all(leading@, file)
                + enums_in(*receiver, file)
                + enums_in_all(generics@, file)
                + enums_in_all(args@, file)
        },
        Node::Branch { children, .. } => enums_in_all(children@, file),
        Node::Block { leading, statements } => {
            enums_in_all(leading@, file)
                + enums_in_all(statements@, file)
        },
        Node::Local { pattern, init, else_branch } => {
            enums_in_all(pattern@, file)
                + (match init {
                    Some(value) => enums_in(*value, file),
                    None => Seq::empty(),
                })
                + enums_in_all(else_branch@, file)
        },
        Node::Other { children } => enums_in_all(children@, file),
    }
}

/// The enums declared in `nodes`, node after node.
pub open spec fn enums_in_all(nodes: Seq<Node>, file: Seq<char>)
    -> Seq<(Seq<char>, EnumInfoView)>
    decreases nodes,
{
    if nodes.len() == 0 {
        Seq::empty()
    } else {
        enums_in_all(nodes.drop_last(), file) + enums_in(nodes.last(), file)
    }
}

/// What a walk has met so far.
struct Found {
    usages: Vec<(String, Vec<ReferenceLocation>)>,
    structs: Vec<(String, StructInfo)>,
    enums: Vec<(String, EnumInfo)>,
}

impl Found {
    /// `after` holds what `before` held and then `usages`, `structs` and
    /// `enums`.
    spec fn grew_by(
        before: &Found,
        after: &Found,
        usages: Seq<(Seq<char>, Seq<ReferenceLocationView>)>,
        structs: Seq<(Seq<char>, StructInfoView)>,
        enums: Seq<(Seq<char>, EnumInfoView)>,
    ) -> bool {
        &&& after.usages.deep_view() == before.usages.deep_view() + usages
        &&& after.structs.deep_view() == before.structs.deep_view() + structs
        &&& after.enums.deep_view() == before.enums.deep_view() + enums
    }

    fn new() -> (found: Self)
        ensures
            found.usages.deep_view() == Seq::<(Seq<char>, Seq<ReferenceLocationView>)>::empty(),
            found.structs.deep_view() == Seq::<(Seq<char>, StructInfoView)>::empty(),
            found.enums.deep_view() == Seq::<(Seq<char>, EnumInfoView)>::empty(),
    {
        let found = Found { usages: Vec::new(), structs: Vec::new(), enums: Vec::new() };
        assert(found.usages.deep_view() =~= Seq::empty());
        assert(found.structs.deep_view() =~= Seq::empty());
        assert(found.enums.deep_view() =~= Seq::empty());
        found
    }
}

fn note_usage(path: &Node, file: &String, found: &mut Found)
    ensures
        Found::grew_by(
            old(found),
            final(found),
            usage_of(*path, file@),
            Seq::empty(),
            Seq::empty(),
        ),
{
    match path.tail() {
        Some(ident) => {
            let mut places: Vec<ReferenceLocation> = Vec::new();
            places.push(ReferenceLocation { file: file.clone(), range: ident.range });
            assert(places.deep_view() =~= seq![location(*ident, file@)]);
            found.usages.push((ident.name.clone(), places));
            assert(found.usages.deep_view() =~= old(found).usages.deep_view() + usage_of(
                *path,
                file@,
            ));
        },
        None => {
            assert(found.usages.deep_view() =~= old(found).usages.deep_view() + usage_of(
                *path,
                file@,
            ));
        },
    }
    assert(found.structs.deep_view() =~= old(found).structs.deep_view() + Seq::empty());
    assert(found.enums.deep_view() =~= old(found).enums.deep_view() + Seq::empty());
}

fn declare_struct(name: &Ident, fields: &Vec<Node>, file: &String, found: &mut Found)
    ensures
        Found::grew_by(
            old(found),
            final(found),
            Seq::empty(),
            seq![(name.name@, struct_entry(*name, fields@, file@))],
            Seq::empty(),
        ),
{
    let info = StructInfo {
        name: name.name.clone(),
        field_count: fields.len(),
        file: file.clone(),
        range: name.range,
    };
    found.structs.push((name.name.clone(), info));
    assert(found.usages.deep_view() =~= old(found).usages.deep_view() + Seq::empty());
    assert(found.structs.deep_view() =~= old(found).structs.deep_view() + seq![
        (name.name@, struct_entry(*name, fields@, file@)),
    ]);
    assert(found.enums.deep_view() =~= old(found).enums.deep_view() + Seq::empty());
}

fn declare_enum(name: &Ident, variants: &Vec<Node>, file: &String, found: &mut Found)
    ensures
        Found::grew_by(
            old(found),
            final(found),
            Seq::empty(),
            Seq::empty(),
            seq![(name.name@, enum_entry(*name, variants@, file@))],
        ),
{
    let info = EnumInfo {
        name: name.name.clone(),
        variant_count: variants.len(),
        file: file.clone(),
        range: name.range,
    };
    found.enums.push((name.name.clone(), info));
    assert(found.usages.deep_view() =~= old(found).usages.deep_view() + Seq::empty());
    assert(found.structs.deep_view() =~= old(found).structs.deep_view() + Seq::empty());
    assert(found.enums.deep_view() =~= old(found).enums.deep_view() + seq![
        (name.name@, enum_entry(*name, variants@, file@)),
    ]);
}

/// Appends what walking `node` adds to `found`.
#[verifier::rlimit(60)]
fn walk(node: &Node, file: &String, found: &mut Found)
    ensures
        Found::grew_by(
            old(found),
            final(found),
            usages_in(*node, file@),
            structs_in(*node, file@),
            enums_in(*node, file@),
        ),
    decreases node,
{
    match node {
        Node::Ident(_) => {},
        Node::Path { segments } => {
            note_usage(node, file, found);
            walk_all(segments, file, found);
        },
        Node::Segment { arguments, .. } => {
            walk_all(arguments, file, found);
        },
        Node::TypePath { qualifier, path } => {
            note_usage(path, file, found);
            walk_all(qualifier, file, found);
            walk(path, file, found);
        },
        Node::ExprPath { qualifier, path } => {
            walk_all(qualifier, file, found);
            walk(path, file, found);
        },
        Node::Function { leading, generics, params, output, body, .. } => {
            walk_all(leading, file, found);
            walk_all(generics, file, found);
            walk_all(params, file, found);
            walk_all(output, file, found);
            walk_all(body, file, found);
        },
        Node::Struct { leading, name, generics, fields } => {
            declare_struct(name, fields, file, found);
            walk_all(leading, file, found);
            walk_all(generics, file, found);
            walk_all(fields, file, found);
        },
        Node::Enum { leading, name, generics, variants } => {
            declare_enum(name, variants, file, found);
            walk_all(leading, file, found);
            walk_all(generics, file, found);
            walk_all(variants, file, found);
        },
        Node::Trait { leading, members, .. } => {
            walk_all(leading, file, found);
            walk_all(members, file, found);
        },
        Node::Use { leading, tree } => {
            walk_all(leading, file, found);
            walk(tree, file, found);
        },
        Node::UsePath { tree, .. } => {
            walk(tree, file, found);
        },
        Node::UseName { .. } => {},
        Node::UseRename { .. } => {},
        Node::UseGlob => {},
        Node::UseGroup { items } => {
            walk_all(items, file, found);
        },
        Node::Call { leading, callee, args } => {
            walk_all(leading, file, found);
            walk(callee, file, found);
            walk_all(args, file, found);
        },
        Node::MethodCall { leading, receiver, generics, args, .. } => {
            walk_all(leading, file, found);
            walk(receiver, file, found);
            walk_all(generics, file, found);
            walk_all(args, file, found);
        },
        Node::Branch { children, .. } => {
            walk_all(children, file, found);
        },
        Node::Block { leading, statements } => {
            walk_all(leading, file, found);
            walk_all(statements, file, found);
        },
        Node::Local { pattern, init, else_branch } => {
            walk_all(pattern, file, found);
            if let Some(value) = init {
                walk(value, file, found);
            }
            walk_all(else_branch, file, found);
        },
        Node::Other { children } => {
            walk_all(children, file, found);
        },
    }
    assert(found.usages.deep_view() =~= old(found).usages.deep_view() + usages_in(*node, file@));
    assert(found.structs.deep_view() =~= old(found).structs.deep_view() + structs_in(
        *node,
        file@,
    ));
    assert(found.enums.deep_view() =~= old(found).enums.deep_view() + enums_in(*node, file@));
}

/// Appends what walking `nodes` adds to `found`, node after node.
fn walk_all(nodes: &Vec<Node>, file: &String, found: &mut Found)
    ensures
        Found::grew_by(
            old(found),
            final(found),
            usages_in_all(nodes@, file@),
            structs_in_all(nodes@, file@),
            enums_in_all(nodes@, file@),
        ),
    decreases nodes,
{
    let mut i: usize = 0;
    assert(nodes@.take(0) =~= Seq::<Node>::empty());
    assert(found.usages.deep_view() =~= old(found).usages.deep_view() + Seq::empty());
    assert(found.structs.deep_view() =~= old(found).structs.deep_view() + Seq::empty());
    assert(found.enums.deep_view() =~= old(found).enums.deep_view() + Seq::empty());
    while i < nodes.len()
        invariant
            i <= nodes.len(),
            Found::grew_by(
                old(found),
                found,
                usages_in_all(nodes@.take(i as int), file@),
                structs_in_all(nodes@.take(i as int), file@),
                enums_in_all(nodes@.take(i as int), file@),
            ),
        decreases nodes.len() - i,
    {
        walk(&nodes[i], file, found);
        assert(nodes@.take(i + 1).drop_last() =~= nodes@.take(i as int));
        assert(found.usages.deep_view() =~= old(found).usages.deep_view() + usages_in_all(
            nodes@.take(i + 1),
            file@,
        ));
        assert(found.structs.deep_view() =~= old(found).structs.deep_view() + structs_in_all(
            nodes@.take(i + 1),
            file@,
        ));
        assert(found.enums.deep_view() =~= old(found).enums.deep_view() + enums_in_all(
            nodes@.take(i + 1),
            file@,
        ));
        i += 1;
    }
    assert(nodes@.take(i as int) =~= nodes@);
}

/// Gathers struct and enum declarations and type usages from the trees it
/// visits.
pub struct TypeUsageCollector {
    pub file: String,
    pub usages: NameMap<Vec<ReferenceLocation>>,
    pub struct_info: NameMap<StructInfo>,
    pub enum_info: NameMap<EnumInfo>,
}

impl TypeUsageCollector {
    /// A collector for `file` that has gathered nothing.
    pub fn new(file: String) -> (collector: Self)
        ensures
            collector.file@ == file@,
            collector.usages@ == Seq::<(Seq<char>, Seq<ReferenceLocationView>)>::empty(),
            collector.struct_info@ == Seq::<(Seq<char>, StructInfoView)>::empty(),
            collector.enum_info@ == Seq::<(Seq<char>, EnumInfoView)>::empty(),
    {
        TypeUsageCollector {
            file,
            usages: NameMap::new(),
            struct_info: NameMap::new(),
            enum_info: NameMap::new(),
        }
    }

    /// `after` is `before` with `usages` joined to its usage index and
    /// `structs` and `enums` put into its declarations.
    pub open spec fn grew_by(
        before: &TypeUsageCollector,
        after: &TypeUsageCollector,
        usages: Seq<(Seq<char>, Seq<ReferenceLocationView>)>,
        structs: Seq<(Seq<char>, StructInfoView)>,
        enums: Seq<(Seq<char>, EnumInfoView)>,
    ) -> bool {
        &&& after.file@ == before.file@
        &&& after.usages@ == join_all(before.usages@, usages)
        &&& after.struct_info@ == put_all(before.struct_info@, structs)
        &&& after.enum_info@ == put_all(before.enum_info@, enums)
    }

    fn gather(&mut self, found: Found)
        ensures
            Self::grew_by(
                old(self),
                final(self),
                found.usages.deep_view(),
                found.structs.deep_view(),
                found.enums.deep_view(),
            ),
    {
        self.usages.extend_all(found.usages);
        self.struct_info.insert_all(found.structs);
        self.enum_info.insert_all(found.enums);
    }

    /// Walks `tree`.
    pub fn visit_file(&mut self, tree: &SyntaxTree)
        ensures
            Self::grew_by(
                old(self),
                final(self),
                usages_in_all(tree.nodes@, old(self).file@),
                structs_in_all(tree.nodes@, old(self).file@),
                enums_in_all(tree.nodes@, old(self).file@),
            ),
    {
        self.visit_nodes(&tree.nodes);
    }

    /// Walks `node`.
    pub fn visit_node(&mut self, node: &Node)
        ensures
            Self::grew_by(
                old(self),
                final(self),
                usages_in(*node, old(self).file@),
                structs_in(*node, old(self).file@),
                enums_in(*node, old(self).file@),
            ),
    {
        let mut found = Found::new();
        walk(node, &self.file, &mut found);
        assert(found.usages.deep_view() =~= usages_in(*node, self.file@));
        assert(found.structs.deep_view() =~= structs_in(*node, self.file@));
        assert(found.enums.deep_view() =~= enums_in(*node, self.file@));
        self.gather(found);
    }

    /// Walks `nodes`.
    pub fn visit_nodes(&mut self, nodes: &Vec<Node>)
        ensures
            Self::grew_by(
                old(self),
                final(self),
                usages_in_all(nodes@, old(self).file@),
                structs_in_all(nodes@, old(self).file@),
                enums_in_all(nodes@, old(self).file@),
            ),
    {
        let mut found = Found::new();
        walk_all(nodes, &self.file, &mut found);
        assert(found.usages.deep_view() =~= usages_in_all(nodes@, self.file@));
        assert(found.structs.deep_view() =~= structs_in_all(nodes@, self.file@));
        assert(found.enums.deep_view() =~= enums_in_all(nodes@, self.file@));
        self.gather(found);
    }
}

} // verus!
