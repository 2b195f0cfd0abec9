//! The collectors: each walks one syntax tree and gathers one kind of fact.

pub mod call_graph;
pub mod module_deps;
pub mod references;
pub mod symbols;
pub mod type_usage;

pub use call_graph::CallGraphCollector;
pub use module_deps::ModuleDependencyCollector;
pub use references::ReferenceFinder;
pub use symbols::SymbolCollector;
pub use type_usage::TypeUsageCollector;
