//! Source-code intelligence over syntax trees.
//!
//! Given the syntax tree of a file, the collectors in `visitors` gather its
//! symbols, the occurrences of a name, its call edges and function measures,
//! its struct and enum declarations with the places where type names are
//! used, and the names it imports. `tools` runs them over the files of a
//! workspace, merges what they gather into graphs, and has `smells` make the
//! findings: private functions that nothing calls, and declarations beyond a
//! threshold. `cache` keeps one text for each path. The file check and the
//! indexing store a text only where the parser accepts it, and the lookups
//! and the indexing walk a tree only where the text it stands for is the
//! one cached for its path.
//!
//! Trees come from outside: `syntax` is the shape that a parser's tree is
//! converted to before it is handed in. The library itself asks the parser
//! one thing only, in `parse`: whether a text is a well-formed file, and if
//! not, where and why. That answer is taken on trust, and so is left open
//! whether a tree that is handed in is the tree of the text it comes with;
//! everything else is proved against the contracts stated here.

pub mod cache;
pub mod models;
pub mod name_map;
pub mod parse;
pub mod smells;
pub mod syntax;
pub mod text;
pub mod tools;
pub mod visitors;
