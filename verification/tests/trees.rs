//! The collectors and the operations on trees that are written out by hand.

use code_intel::cache::MyServer;
use code_intel::models::{Position, Range};
use code_intel::syntax::{BranchKind, Ident, Node, ParsedFile, SyntaxTree, Visibility};
use code_intel::tools::check_file::record_check;
use code_intel::parse::SyntaxError;
use code_intel::visitors::call_graph::{count_branches, count_branches_all};
use code_intel::visitors::module_deps::extract_use_paths;
use code_intel::visitors::{CallGraphCollector, ReferenceFinder, TypeUsageCollector};

fn span(from: usize, to: usize) -> Range {
    Range { start: Position { line: from, character: 0 }, end: Position { line: to, character: 4 } }
}

fn id(name: &str, line: usize) -> Ident {
    Ident { name: name.to_string(), range: span(line, line) }
}

fn path(names: &[&str], line: usize) -> Node {
    Node::Path {
        segments: names
            .iter()
            .map(|name| Node::Segment { ident: id(name, line), arguments: vec![] })
            .collect(),
    }
}

fn call(names: &[&str], line: usize) -> Node {
    Node::Call {
        leading: vec![],
        callee: Box::new(Node::ExprPath { qualifier: vec![], path: Box::new(path(names, line)) }),
        args: vec![],
    }
}

fn function(name: Ident, body: Vec<Node>) -> Node {
    Node::Function {
        leading: vec![],
        visibility: Visibility::Inherited,
        name,
        generics: vec![],
        params: vec![],
        output: vec![],
        body,
    }
}

fn branch(kind: BranchKind) -> Node {
    Node::Branch { kind, children: vec![] }
}

#[test]
fn name_spanning_fifty_one_lines_is_a_long_function() {
    let long = function(Ident { name: "long".to_string(), range: span(1, 51) }, vec![]);
    let short = function(Ident { name: "short".to_string(), range: span(1, 50) }, vec![]);
    let files = vec![ParsedFile {
        path: "w.rs".to_string(),
        source: String::new(),
        tree: Some(SyntaxTree { nodes: vec![short, long] }),
    }];
    let mut server = MyServer::new();
    let graphs = server.index_workspace(&files);
    assert_eq!(graphs.function_info[0].line_count, 50);
    assert_eq!(graphs.function_info[1].line_count, 51);
    assert_eq!(
        graphs.refactoring_suggestions,
        vec![
            "Function 'long' in w.rs is too long (51 lines). Consider breaking it into smaller functions."
                .to_string()
        ]
    );
    assert_eq!(graphs.unused_functions, vec!["short".to_string(), "long".to_string()]);
}

#[test]
fn two_files_foo_and_main() {
    let lib = SyntaxTree { nodes: vec![function(id("foo", 1), vec![])] };
    let main = SyntaxTree { nodes: vec![function(id("main", 1), vec![call(&["foo"], 1)])] };
    let files = vec![
        ParsedFile { path: "lib.rs".to_string(), source: "fn foo() {}\n".to_string(), tree: Some(lib) },
        ParsedFile {
            path: "main.rs".to_string(),
            source: "fn main() { foo(); }\n".to_string(),
            tree: Some(main),
        },
    ];
    let mut server = MyServer::new();
    let graphs = server.index_workspace(&files);
    assert_eq!(graphs.call_graph.calls.get("main"), Some(&vec!["foo".to_string()]));
    assert_eq!(graphs.call_graph.calls.get("foo"), Some(&vec![]));
    assert_eq!(graphs.unused_functions, Vec::<String>::new());
    assert_eq!(graphs.function_info.len(), 2);
    assert_eq!(graphs.function_info[0].file, "lib.rs");
    assert_eq!(graphs.function_info[1].file, "main.rs");
    assert_eq!(server.cache.get("main.rs"), Some("fn main() { foo(); }\n".to_string()));
}

#[test]
fn merging_appends_lists_of_known_keys() {
    let one = SyntaxTree {
        nodes: vec![function(id("run", 1), vec![call(&["a"], 2)]), Node::TypePath {
            qualifier: vec![],
            path: Box::new(path(&["T"], 3)),
        }],
    };
    let two = SyntaxTree {
        nodes: vec![function(id("run", 1), vec![call(&["b"], 2), call(&["a"], 3)]), Node::TypePath {
            qualifier: vec![],
            path: Box::new(path(&["T"], 4)),
        }],
    };
    let files = vec![
        ParsedFile { path: "one.rs".to_string(), source: String::new(), tree: Some(one) },
        ParsedFile { path: "none.rs".to_string(), source: String::new(), tree: None },
        ParsedFile { path: "two.rs".to_string(), source: String::new(), tree: Some(two) },
    ];
    let mut server = MyServer::new();
    let graphs = server.index_workspace(&files);
    assert_eq!(
        graphs.call_graph.calls.get("run"),
        Some(&vec!["a".to_string(), "b".to_string(), "a".to_string()])
    );
    assert_eq!(graphs.function_info.len(), 2);
    let places: Vec<(String, usize)> = graphs
        .type_usage_graph
        .usages
        .get("T")
        .unwrap()
        .iter()
        .map(|place| (place.file.clone(), place.range.start.line))
        .collect();
    assert_eq!(
        places,
        vec![
            ("one.rs".to_string(), 3),
            ("one.rs".to_string(), 3),
            ("two.rs".to_string(), 4),
            ("two.rs".to_string(), 4),
        ]
    );
    assert_eq!(server.cache.get_all().len(), 2);
    assert_eq!(server.cache.get("none.rs"), None);
}

#[test]
fn last_declaration_of_a_name_wins_within_a_file() {
    let tree = SyntaxTree {
        nodes: vec![
            function(id("twice", 1), vec![]),
            function(id("once", 2), vec![]),
            function(id("twice", 3), vec![branch(BranchKind::If)]),
        ],
    };
    let mut collector = CallGraphCollector::new("d.rs".to_string());
    collector.visit_file(&tree);
    assert_eq!(collector.function_info.len(), 2);
    assert_eq!(collector.function_info.key_at(0), "twice");
    assert_eq!(collector.function_info.get("twice").unwrap().range, span(3, 3));
    assert_eq!(collector.function_info.get("twice").unwrap().complexity, 2);
}

#[test]
fn calls_outside_functions_are_dropped_unless_a_caller_is_given() {
    let tree = SyntaxTree { nodes: vec![call(&["std", "setup"], 1)] };
    let mut collector = CallGraphCollector::new("d.rs".to_string());
    collector.visit_file(&tree);
    assert_eq!(collector.calls.len(), 0);
    collector.current_function = Some("init".to_string());
    collector.visit_file(&tree);
    assert_eq!(collector.calls.get("init"), Some(&vec!["setup".to_string()]));
    assert_eq!(collector.current_function, Some("init".to_string()));
}

#[test]
fn callee_that_is_no_path_makes_no_edge() {
    let odd = Node::Call {
        leading: vec![],
        callee: Box::new(Node::Other { children: vec![call(&["make"], 1)] }),
        args: vec![],
    };
    let empty = Node::Call {
        leading: vec![],
        callee: Box::new(Node::ExprPath {
            qualifier: vec![],
            path: Box::new(Node::Path { segments: vec![] }),
        }),
        args: vec![],
    };
    let tree = SyntaxTree { nodes: vec![function(id("f", 1), vec![odd, empty])] };
    let mut collector = CallGraphCollector::new("d.rs".to_string());
    collector.visit_file(&tree);
    assert_eq!(collector.calls.get("f"), Some(&vec!["make".to_string()]));
}

#[test]
fn branches_are_counted_through_blocks_and_bindings_only() {
    let block = Node::Block {
        leading: vec![branch(BranchKind::If)],
        statements: vec![branch(BranchKind::Loop), branch(BranchKind::Or)],
    };
    assert_eq!(count_branches(&block), 2);
    let bound = Node::Local {
        pattern: vec![branch(BranchKind::If)],
        init: Some(Box::new(branch(BranchKind::Match))),
        else_branch: vec![branch(BranchKind::If)],
    };
    assert_eq!(count_branches(&bound), 1);
    let unbound = Node::Local { pattern: vec![], init: None, else_branch: vec![] };
    assert_eq!(count_branches(&unbound), 0);
    let hidden = Node::Other { children: vec![branch(BranchKind::While)] };
    assert_eq!(count_branches(&hidden), 0);
    assert_eq!(count_branches(&branch(BranchKind::For)), 1);
    assert_eq!(count_branches_all(&vec![block, bound, unbound, hidden, branch(BranchKind::And)]), 4);
}

#[test]
fn type_path_is_found_twice_by_the_reference_finder() {
    let tree = SyntaxTree {
        nodes: vec![Node::TypePath { qualifier: vec![], path: Box::new(path(&["a", "Foo"], 7)) }],
    };
    let mut finder = ReferenceFinder::new("Foo".to_string(), "r.rs".to_string());
    finder.visit_file(&tree);
    assert_eq!(finder.matches.len(), 2);
    assert_eq!(finder.matches[0].range, span(7, 7));
    assert_eq!(finder.matches[1].range, span(7, 7));
    assert_eq!(finder.matches[0].file, "r.rs");
    let mut other = ReferenceFinder::new("a".to_string(), "r.rs".to_string());
    other.visit_file(&tree);
    assert_eq!(other.matches.len(), 1);
    let mut types = TypeUsageCollector::new("r.rs".to_string());
    types.visit_file(&tree);
    assert_eq!(types.usages.get("Foo").unwrap().len(), 2);
    assert!(types.usages.get("a").is_none());
}

#[test]
fn renamed_import_gives_the_new_name() {
    let tree = Node::UsePath {
        ident: id("a", 1),
        tree: Box::new(Node::UseGroup {
            items: vec![
                Node::UseRename { ident: id("b", 1), alias: id("c", 1) },
                Node::UseGlob,
                Node::UseName { ident: id("d", 1) },
                Node::Other { children: vec![Node::UseName { ident: id("hidden", 1) }] },
            ],
        }),
    };
    let mut names = vec!["first".to_string()];
    extract_use_paths(&tree, &mut names);
    assert_eq!(names, vec!["first", "a", "c", "d"]);
}

#[test]
fn recorded_outcome_decides_what_is_cached() {
    let mut server = MyServer::new();
    let none = record_check(&mut server, "a.rs".to_string(), "text".to_string(), None);
    assert_eq!(none.len(), 0);
    assert_eq!(server.cache.get("a.rs"), Some("text".to_string()));
    let failure = SyntaxError { message: "expected `;`".to_string(), range: span(2, 3) };
    let one = record_check(&mut server, "a.rs".to_string(), "worse".to_string(), Some(failure));
    assert_eq!(one.len(), 1);
    assert_eq!(one[0].message, "expected `;`");
    assert_eq!(one[0].range, span(2, 3));
    assert_eq!(one[0].severity, "error");
    assert_eq!(server.cache.get("a.rs"), Some("text".to_string()));
}
