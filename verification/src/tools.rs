//! The four operations of the engine, as functions and as methods of the
//! server.

pub mod check_file;
pub mod find_references;
pub mod goto_definition;
pub mod index_workspace;

use vstd::prelude::*;
use crate::cache::{all_well_formed, MyServer};
use crate::models::{
    CheckFileParams, Diagnostic, FindReferencesParams, GotoDefinitionParams, ReferenceLocation,
    SymbolInfo, WorkspaceGraphs,
};
use crate::name_map::distinct_keys;
use crate::parse::{syntax_error, MAX_SOURCE_CHARS};
use crate::syntax::ParsedFile;

verus! {

impl MyServer {
    /// Checks the text `code` of the file `params.path`: see
    /// `check_file::check_file`.
    pub fn check_file(&mut self, params: CheckFileParams, code: String) -> (diagnostics:
        Vec<Diagnostic>)
        requires
            code@.len() <= MAX_SOURCE_CHARS,
        ensures
            check_file::checked(
                old(self).cache@,
                params.path@,
                code@,
                syntax_error(code@),
                final(self).cache@,
                diagnostics.deep_view(),
            ),
            all_well_formed(old(self).cache@) ==> all_well_formed(final(self).cache@),
            distinct_keys(old(self).cache@) ==> distinct_keys(final(self).cache@),
    {
        check_file::check_file(self, params, code)
    }

    /// Indexes `files`: see `index_workspace::index_workspace`.
    pub fn index_workspace(&mut self, files: &Vec<ParsedFile>) -> (graphs: WorkspaceGraphs)
        ensures
            final(self).cache@ == index_workspace::populated(old(self).cache@, files@),
            graphs@ == index_workspace::graphs_of(
                index_workspace::indexed(old(self).cache@, files@),
            ),
            all_well_formed(old(self).cache@) ==> all_well_formed(final(self).cache@),
            distinct_keys(old(self).cache@) ==> distinct_keys(final(self).cache@),
    {
        index_workspace::index_workspace(self, files)
    }

    /// The declarations named `params.name`: see
    /// `goto_definition::goto_definition`.
    pub fn goto_definition(
        &self,
        params: GotoDefinitionParams,
        files: &Vec<ParsedFile>,
    ) -> (results: Vec<SymbolInfo>)
        ensures
            results.deep_view() == goto_definition::definitions(
                self.cache@,
                files@,
                params.name@,
            ),
    {
        goto_definition::goto_definition(self, params, files)
    }

    /// The occurrences of `params.name`: see
    /// `find_references::find_references`.
    pub fn find_references(
        &self,
        params: FindReferencesParams,
        files: &Vec<ParsedFile>,
    ) -> (refs: Vec<ReferenceLocation>)
        ensures
            refs.deep_view() == find_references::occurrences(self.cache@, files@, params.name@),
    {
        find_references::find_references(self, params, files)
    }
}

} // verus!
