//! The file check: a text that parses is stored in the cache and yields no
//! diagnostic; a text that does not parse yields one diagnostic and leaves
//! the cache as it was.

use vstd::prelude::*;
use vstd::string::StrSliceExecFns;
use crate::cache::{all_well_formed, lemma_put_keeps_well_formed, MyServer};
use crate::models::{CheckFileParams, Diagnostic, DiagnosticView};
use crate::name_map::{distinct_keys, lemma_put, lookup, put};
use crate::parse::{
    error_view, parse_failure, syntax_error, well_formed, SyntaxError, SyntaxErrorView,
    MAX_SOURCE_CHARS,
};

verus! {

/// The diagnostic of a syntax error.
pub open spec fn diagnostic_of(error: SyntaxErrorView) -> DiagnosticView {
    DiagnosticView { message: error.message, range: error.range, severity: "error"@ }
}

/// What a check of the text `code` of `path` with the outcome `failure`
/// does to the cache and returns.
pub open spec fn checked(
    before: Seq<(Seq<char>, Seq<char>)>,
    path: Seq<char>,
    code: Seq<char>,
    failure: Option<SyntaxErrorView>,
    after: Seq<(Seq<char>, Seq<char>)>,
    diagnostics: Seq<DiagnosticView>,
) -> bool {
    match failure {
        None => diagnostics == Seq::<DiagnosticView>::empty() && after == put(before, path, code),
        Some(error) => diagnostics == seq![diagnostic_of(error)] && after == before,
    }
}

/// After a check of a text that parses, nothing is reported and the cache
/// holds exactly that text for the path. After a check of a text that does
/// not parse, exactly one diagnostic is reported, its severity is `error`,
/// and the cache is what it was. Where the outcome recorded for a text is
/// none only if the parser accepts the text, a cache of well-formed texts
/// stays one, and a cache without a path twice stays one.
pub proof fn lemma_check_outcome(
    before: Seq<(Seq<char>, Seq<char>)>,
    path: Seq<char>,
    code: Seq<char>,
    failure: Option<SyntaxErrorView>,
    after: Seq<(Seq<char>, Seq<char>)>,
    diagnostics: Seq<DiagnosticView>,
)
    requires
        checked(before, path, code, failure, after, diagnostics),
    ensures
        failure is None ==> diagnostics.len() == 0 && lookup(after, path) == Some(code),
        failure is Some ==> diagnostics.len() == 1 && diagnostics[0].severity == "error"@ && after
            == before,
        all_well_formed(before) && (failure is None ==> well_formed(code)) ==> all_well_formed(
            after,
        ),
        distinct_keys(before) ==> distinct_keys(after),
{
    lemma_put(before, path, code, path);
    lemma_put_keeps_well_formed(before, path, code);
}

/// Records the outcome of parsing the text of a file: without a failure
/// the text becomes the cached text of `path` and nothing is reported; with
/// one the cache stays as it is and the failure is reported as the one
/// diagnostic, of severity `error`.
pub fn record_check(
    server: &mut MyServer,
    path: String,
    code: String,
    failure: Option<SyntaxError>,
) -> (diagnostics: Vec<Diagnostic>)
    ensures
        checked(
            old(server).cache@,
            path@,
            code@,
            error_view(failure),
            final(server).cache@,
            diagnostics.deep_view(),
        ),
        all_well_formed(old(server).cache@) && (failure is None ==> well_formed(code@))
            ==> all_well_formed(final(server).cache@),
        distinct_keys(old(server).cache@) ==> distinct_keys(final(server).cache@),
{
    let mut diagnostics: Vec<Diagnostic> = Vec::new();
    match failure {
        None => {
            server.cache.insert(path, code);
            assert(diagnostics.deep_view() =~= Seq::<DiagnosticView>::empty());
        },
        Some(error) => {
            let found = Diagnostic {
                message: error.message,
                range: error.range,
                severity: "error".to_owned(),
            };
            diagnostics.push(found);
            assert(diagnostics.deep_view() =~= seq![diagnostic_of(error@)]);
        },
    }
    diagnostics
}

/// Checks the text `code` of the file `params.path`: asks the parser for
/// the first error in the text and records the outcome. The parser's table
/// of source positions for this thread is emptied on the way (see
/// `parse`).
pub fn check_file(server: &mut MyServer, params: CheckFileParams, code: String) -> (diagnostics:
    Vec<Diagnostic>)
    requires
        code@.len() <= MAX_SOURCE_CHARS,
    ensures
        checked(
            old(server).cache@,
            params.path@,
            code@,
            syntax_error(code@),
            final(server).cache@,
            diagnostics.deep_view(),
        ),
        all_well_formed(old(server).cache@) ==> all_well_formed(final(server).cache@),
        distinct_keys(old(server).cache@) ==> distinct_keys(final(server).cache@),
{
    let failure = parse_failure(code.as_str());
    record_check(server, params.path, code, failure)
}

/// Checks the text `code` of the file `params.path` if the text is short
/// enough for the parser; a longer text is not checked, and the cache stays
/// as it is.
pub fn try_check_file(server: &mut MyServer, params: CheckFileParams, code: String) -> (outcome:
    Option<Vec<Diagnostic>>)
    ensures
        match outcome {
            Some(diagnostics) => code@.len() <= MAX_SOURCE_CHARS && checked(
                old(server).cache@,
                params.path@,
                code@,
                syntax_error(code@),
                final(server).cache@,
                diagnostics.deep_view(),
            ),
            None => code@.len() > MAX_SOURCE_CHARS && final(server).cache@ == old(server).cache@,
        },
        all_well_formed(old(server).cache@) ==> all_well_formed(final(server).cache@),
        distinct_keys(old(server).cache@) ==> distinct_keys(final(server).cache@),
{
    if code.as_str().unicode_len() <= MAX_SOURCE_CHARS {
        Some(check_file(server, params, code))
    } else {
        None
    }
}

} // verus!
