//! What the parser says of a source text. The library asks the parser only
//! whether a text is a well-formed file and, if not, where and why; the
//! trees that the collectors walk are handed to it.

use vstd::prelude::*;
use vstd::string::StrSliceExecFns;
use crate::models::{Position, Range};

verus! {

/// Why a text is no well-formed file, and where.
#[derive(Debug)]
pub struct SyntaxError {
    pub message: String,
    pub range: Range,
}

pub struct SyntaxErrorView {
    pub message: Seq<char>,
    pub range: Range,
}

impl View for SyntaxError {
    type V = SyntaxErrorView;

    open spec fn view(&self) -> SyntaxErrorView {
        SyntaxErrorView { message: self.message@, range: self.range }
    }
}

/// Most characters that a text handed to the parser may have: the parser
/// counts positions in 32 bits and keeps one position free at each end.
pub const MAX_SOURCE_CHARS: usize = 0xffff_fffe;

/// The first error that `syn::parse_file` reports for the text `code`, with
/// its message and the lines and columns of its span; `None` for a text
/// that parses.
pub uninterp spec fn syntax_error(code: Seq<char>) -> Option<SyntaxErrorView>;

/// The parser can be asked about the text `code`, and finds no error in it.
pub open spec fn well_formed(code: Seq<char>) -> bool {
    code.len() <= MAX_SOURCE_CHARS && syntax_error(code) is None
}

/// The view of an optional error.
pub open spec fn error_view(failure: Option<SyntaxError>) -> Option<SyntaxErrorView> {
    match failure {
        Some(error) => Some(error@),
        None => None,
    }
}

/// Asks the parser whether `code` is a well-formed file.
///
/// Calls `proc_macro2::extra::invalidate_current_thread_spans`, which
/// empties the table of source positions that proc-macro2 keeps for the
/// thread, then `syn::parse_file`, and drops the tree. Of an error it keeps
/// the `Display` text as the message and `start()` and `end()` of
/// `Error::span()` as the range: lines count from one, columns from zero,
/// in characters.
///
/// Taken on trust: that the outcome is the one named `syntax_error(code@)`,
/// which is to say that it depends on the text alone. With the table
/// emptied first, the parser numbers the characters of `code` from one, and
/// the bound on the length keeps those numbers within 32 bits.
///
/// Spans of proc-macro2 that the caller holds on this thread are invalid
/// afterwards, and the call must not be made from inside a procedural
/// macro.
#[verifier::external_body]
pub(crate) fn parse_failure(code: &str) -> (failure: Option<SyntaxError>)
    requires
        code@.len() <= MAX_SOURCE_CHARS,
    ensures
        error_view(failure) == syntax_error(code@),
{
    proc_macro2::extra::invalidate_current_thread_spans();
    match syn::parse_file(code) {
        Ok(_) => None,
        Err(error) => {
            let (start, end) = (error.span().start(), error.span().end());
            Some(SyntaxError {
                message: error.to_string(),
                range: Range {
                    start: Position { line: start.line, character: start.column },
                    end: Position { line: end.line, character: end.column },
                },
            })
        },
    }
}

/// Whether `code` is short enough for the parser and parses.
pub fn is_well_formed(code: &str) -> (accepted: bool)
    ensures
        accepted == well_formed(code@),
{
    if code.unicode_len() <= MAX_SOURCE_CHARS {
        parse_failure(code).is_none()
    } else {
        false
    }
}

} // verus!
