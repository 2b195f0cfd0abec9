//! The data model: positions, ranges and the records that the collectors and
//! the workspace operations produce.
//!
//! Every record that owns text has a view in which each `String` is the
//! sequence of its characters; contracts speak of those views.

use vstd::prelude::*;
use crate::name_map::NameMap;

verus! {

/// `n`, or `usize::MAX` where `n` is larger.
pub open spec fn capped(n: nat) -> usize {
    if n >= usize::MAX {
        usize::MAX
    } else {
        n as usize
    }
}

/// A point in a source text.
#[derive(Clone, Copy, Debug, PartialEq, Eq)]
pub struct Position {
    pub line: usize,
    pub character: usize,
}

/// The span of a token or construct, from `start` to `end`.
#[derive(Clone, Copy, Debug, PartialEq, Eq)]
pub struct Range {
    pub start: Position,
    pub end: Position,
}

impl Range {
    /// Number of lines the range touches: the distance between its first and
    /// its last line plus one, capped at `usize::MAX`. A range whose end lies
    /// on an earlier line than its start touches one line.
    pub open spec fn line_span(self) -> nat {
        if self.end.line < self.start.line {
            1
        } else if self.end.line - self.start.line == usize::MAX {
            usize::MAX as nat
        } else {
            (self.end.line - self.start.line + 1) as nat
        }
    }

    pub fn line_count(&self) -> (n: usize)
        ensures
            n == self.line_span(),
    {
        self.end.line.saturating_sub(self.start.line).saturating_add(1)
    }
}

/// A finding of the file check.
#[derive(Debug)]
pub struct Diagnostic {
    pub message: String,
    pub range: Range,
    pub severity: String,
}

pub struct DiagnosticView {
    pub message: Seq<char>,
    pub range: Range,
    pub severity: Seq<char>,
}

impl View for Diagnostic {
    type V = DiagnosticView;

    open spec fn view(&self) -> DiagnosticView {
        DiagnosticView { message: self.message@, range: self.range, severity: self.severity@ }
    }
}

impl DeepView for Diagnostic {
    type V = DiagnosticView;

    open spec fn deep_view(&self) -> DiagnosticView {
        self@
    }
}

impl Clone for Diagnostic {
    fn clone(&self) -> (copy: Self)
        ensures
            copy@ == self@,
    {
        Diagnostic {
            message: self.message.clone(),
            range: self.range,
            severity: self.severity.clone(),
        }
    }
}

/// A named declaration and the span of its name.
#[derive(Debug)]
pub struct SymbolInfo {
    pub name: String,
    pub kind: String,
    pub range: Range,
    pub file: String,
}

pub struct SymbolInfoView {
    pub name: Seq<char>,
    pub kind: Seq<char>,
    pub range: Range,
    pub file: Seq<char>,
}

impl View for SymbolInfo {
    type V = SymbolInfoView;

    open spec fn view(&self) -> SymbolInfoView {
        SymbolInfoView { name: self.name@, kind: self.kind@, range: self.range, file: self.file@ }
    }
}

impl DeepView for SymbolInfo {
    type V = SymbolInfoView;

    open spec fn deep_view(&self) -> SymbolInfoView {
        self@
    }
}

impl Clone for SymbolInfo {
    fn clone(&self) -> (copy: Self)
        ensures
            copy@ == self@,
    {
        SymbolInfo {
            name: self.name.clone(),
            kind: self.kind.clone(),
            range: self.range,
            file: self.file.clone(),
        }
    }
}

/// One lexical occurrence of a name.
#[derive(Debug)]
pub struct ReferenceLocation {
    pub file: String,
    pub range: Range,
}

pub struct ReferenceLocationView {
    pub file: Seq<char>,
    pub range: Range,
}

impl View for ReferenceLocation {
    type V = ReferenceLocationView;

    open spec fn view(&self) -> ReferenceLocationView {
        ReferenceLocationView { file: self.file@, range: self.range }
    }
}

impl DeepView for ReferenceLocation {
    type V = ReferenceLocationView;

    open spec fn deep_view(&self) -> ReferenceLocationView {
        self@
    }
}

impl Clone for ReferenceLocation {
    fn clone(&self) -> (copy: Self)
        ensures
            copy@ == self@,
    {
        ReferenceLocation { file: self.file.clone(), range: self.range }
    }
}

/// The measures taken of one function declaration.
#[derive(Debug)]
pub struct FunctionInfo {
    pub name: String,
    pub line_count: usize,
    pub complexity: usize,
    pub param_count: usize,
    pub visibility: String,
    pub file: String,
    pub range: Range,
}

pub struct FunctionInfoView {
    pub name: Seq<char>,
    pub line_count: usize,
    pub complexity: usize,
    pub param_count: usize,
    pub visibility: Seq<char>,
    pub file: Seq<char>,
    pub range: Range,
}

impl View for FunctionInfo {
    type V = FunctionInfoView;

    open spec fn view(&self) -> FunctionInfoView {
        FunctionInfoView {
            name: self.name@,
            line_count: self.line_count,
            complexity: self.complexity,
            param_count: self.param_count,
            visibility: self.visibility@,
            file: self.file@,
            range: self.range,
        }
    }
}

impl DeepView for FunctionInfo {
    type V = FunctionInfoView;

    open spec fn deep_view(&self) -> FunctionInfoView {
        self@
    }
}

impl Clone for FunctionInfo {
    fn clone(&self) -> (copy: Self)
        ensures
            copy@ == self@,
    {
        FunctionInfo {
            name: self.name.clone(),
            line_count: self.line_count,
            complexity: self.complexity,
            param_count: self.param_count,
            visibility: self.visibility.clone(),
            file: self.file.clone(),
            range: self.range,
        }
    }
}

/// A struct declaration and the number of its fields.
#[derive(Debug)]
pub struct StructInfo {
    pub name: String,
    pub field_count: usize,
    pub file: String,
    pub range: Range,
}

pub struct StructInfoView {
    pub name: Seq<char>,
    pub field_count: usize,
    pub file: Seq<char>,
    pub range: Range,
}

impl View for StructInfo {
    type V = StructInfoView;

    open spec fn view(&self) -> StructInfoView {
        StructInfoView {
            name: self.name@,
            field_count: self.field_count,
            file: self.file@,
            range: self.range,
        }
    }
}

impl DeepView for StructInfo {
    type V = StructInfoView;

    open spec fn deep_view(&self) -> StructInfoView {
        self@
    }
}

impl Clone for StructInfo {
    fn clone(&self) -> (copy: Self)
        ensures
            copy@ == self@,
    {
        StructInfo {
            name: self.name.clone(),
            field_count: self.field_count,
            file: self.file.clone(),
            range: self.range,
        }
    }
}

/// An enum declaration and the number of its variants.
#[derive(Debug)]
pub struct EnumInfo {
    pub name: String,
    pub variant_count: usize,
    pub file: String,
    pub range: Range,
}

pub struct EnumInfoView {
    pub name: Seq<char>,
    pub variant_count: usize,
    pub file: Seq<char>,
    pub range: Range,
}

impl View for EnumInfo {
    type V = EnumInfoView;

    open spec fn view(&self) -> EnumInfoView {
        EnumInfoView {
            name: self.name@,
            variant_count: self.variant_count,
            file: self.file@,
            range: self.range,
        }
    }
}

impl DeepView for EnumInfo {
    type V = EnumInfoView;

    open spec fn deep_view(&self) -> EnumInfoView {
        self@
    }
}

impl Clone for EnumInfo {
    fn clone(&self) -> (copy: Self)
        ensures
            copy@ == self@,
    {
        EnumInfo {
            name: self.name.clone(),
            variant_count: self.variant_count,
            file: self.file.clone(),
            range: self.range,
        }
    }
}

/// Caller name to the callee names of its call sites, one entry per call
/// site, in the order the sites were met.
#[derive(Debug)]
pub struct CallGraph {
    pub calls: NameMap<Vec<String>>,
}

impl View for CallGraph {
    type V = Seq<(Seq<char>, Seq<Seq<char>>)>;

    open spec fn view(&self) -> Seq<(Seq<char>, Seq<Seq<char>>)> {
        self.calls@
    }
}

/// Type name to the places where the name is referenced.
#[derive(Debug)]
pub struct TypeUsageGraph {
    pub usages: NameMap<Vec<ReferenceLocation>>,
}

impl View for TypeUsageGraph {
    type V = Seq<(Seq<char>, Seq<ReferenceLocationView>)>;

    open spec fn view(&self) -> Seq<(Seq<char>, Seq<ReferenceLocationView>)> {
        self.usages@
    }
}

/// File path to the names that the file imports.
#[derive(Debug)]
pub struct ModuleDependencyGraph {
    pub dependencies: NameMap<Vec<String>>,
}

impl View for ModuleDependencyGraph {
    type V = Seq<(Seq<char>, Seq<Seq<char>>)>;

    open spec fn view(&self) -> Seq<(Seq<char>, Seq<Seq<char>>)> {
        self.dependencies@
    }
}

/// What indexing a workspace yields.
#[derive(Debug)]
pub struct WorkspaceGraphs {
    pub call_graph: CallGraph,
    pub type_usage_graph: TypeUsageGraph,
    pub module_dependency_graph: ModuleDependencyGraph,
    pub unused_functions: Vec<String>,
    pub refactoring_suggestions: Vec<String>,
    pub function_info: Vec<FunctionInfo>,
    pub struct_info: Vec<StructInfo>,
    pub enum_info: Vec<EnumInfo>,
}

pub struct WorkspaceGraphsView {
    pub call_graph: Seq<(Seq<char>, Seq<Seq<char>>)>,
    pub type_usage_graph: Seq<(Seq<char>, Seq<ReferenceLocationView>)>,
    pub module_dependency_graph: Seq<(Seq<char>, Seq<Seq<char>>)>,
    pub unused_functions: Seq<Seq<char>>,
    pub refactoring_suggestions: Seq<Seq<char>>,
    pub function_info: Seq<FunctionInfoView>,
    pub struct_info: Seq<StructInfoView>,
    pub enum_info: Seq<EnumInfoView>,
}

impl View for WorkspaceGraphs {
    type V = WorkspaceGraphsView;

    open spec fn view(&self) -> WorkspaceGraphsView {
        WorkspaceGraphsView {
            call_graph: self.call_graph@,
            type_usage_graph: self.type_usage_graph@,
            module_dependency_graph: self.module_dependency_graph@,
            unused_functions: self.unused_functions.deep_view(),
            refactoring_suggestions: self.refactoring_suggestions.deep_view(),
            function_info: self.function_info.deep_view(),
            struct_info: self.struct_info.deep_view(),
            enum_info: self.enum_info.deep_view(),
        }
    }
}

/// Argument of the file check: the path of the file.
#[derive(Debug)]
pub struct CheckFileParams {
    pub path: String,
}

/// Argument of workspace indexing: the root directory.
#[derive(Debug)]
pub struct IndexWorkspaceParams {
    pub root: String,
}

/// Argument of the definition lookup: the symbol's name.
#[derive(Debug)]
pub struct GotoDefinitionParams {
    pub name: String,
}

/// Argument of the reference search: the symbol's name.
#[derive(Debug)]
pub struct FindReferencesParams {
    pub name: String,
}

} // verus!
