//! The findings over merged data: unused functions and the threshold rules.

use code_intel::models::{
    EnumInfo, FunctionInfo, Position, Range, ReferenceLocation, StructInfo,
};
use code_intel::name_map::NameMap;
use code_intel::smells::{
    count_callers, detect_unused_functions, generate_refactoring_suggestions, is_called,
};

fn at(line: usize) -> Range {
    Range { start: Position { line, character: 3 }, end: Position { line, character: 6 } }
}

fn function(name: &str, visibility: &str) -> FunctionInfo {
    FunctionInfo {
        name: name.to_string(),
        line_count: 1,
        complexity: 1,
        param_count: 0,
        visibility: visibility.to_string(),
        file: "a.rs".to_string(),
        range: at(1),
    }
}

fn calls(edges: &[(&str, &[&str])]) -> NameMap<Vec<String>> {
    let mut map = NameMap::new();
    for (caller, callees) in edges {
        map.extend_at(caller.to_string(), callees.iter().map(|c| c.to_string()).collect());
    }
    map
}

fn usages(name: &str, count: usize) -> NameMap<Vec<ReferenceLocation>> {
    let mut map = NameMap::new();
    let places =
        (0..count).map(|i| ReferenceLocation { file: "u.rs".to_string(), range: at(i) }).collect();
    map.extend_at(name.to_string(), places);
    map
}

fn suggest(
    functions: &[FunctionInfo],
    structs: &[StructInfo],
    enums: &[EnumInfo],
    graph: &NameMap<Vec<String>>,
    used: &NameMap<Vec<ReferenceLocation>>,
) -> Vec<String> {
    generate_refactoring_suggestions(
        &functions.to_vec(),
        &structs.to_vec(),
        &enums.to_vec(),
        graph,
        used,
    )
}

#[test]
fn called_functions_and_main_are_not_unused() {
    let functions =
        vec![function("f", "private"), function("g", "private"), function("main", "private")];
    let graph = calls(&[("f", &["g"]), ("g", &[]), ("main", &["f"])]);
    assert_eq!(detect_unused_functions(&functions, &graph), Vec::<String>::new());
}

#[test]
fn private_function_that_nothing_calls_is_unused() {
    let functions =
        vec![function("f", "private"), function("g", "private"), function("main", "private")];
    let graph = calls(&[("f", &["g"]), ("g", &[]), ("main", &[])]);
    assert_eq!(detect_unused_functions(&functions, &graph), vec!["f".to_string()]);
}

#[test]
fn reachability_does_not_count_only_callee_names_do() {
    let functions = vec![function("a", "private"), function("b", "private")];
    let graph = calls(&[("a", &["b"]), ("b", &["a"])]);
    assert_eq!(detect_unused_functions(&functions, &graph), Vec::<String>::new());
}

#[test]
fn public_functions_are_never_unused() {
    let functions = vec![function("api", "public"), function("helper", "private")];
    let graph = calls(&[("api", &[]), ("helper", &[])]);
    assert_eq!(detect_unused_functions(&functions, &graph), vec!["helper".to_string()]);
}

#[test]
fn unused_names_come_once_per_function_in_order() {
    let functions = vec![
        function("z", "private"),
        function("same", "public"),
        function("same", "private"),
        function("a", "private"),
        function("z", "private"),
    ];
    let graph = calls(&[("other", &["a"])]);
    assert_eq!(
        detect_unused_functions(&functions, &graph),
        vec!["z".to_string(), "same".to_string(), "z".to_string()]
    );
}

#[test]
fn is_called_looks_at_every_callee_list() {
    let graph = calls(&[("a", &["x", "y"]), ("b", &[]), ("c", &["z"])]);
    assert!(is_called(&graph, &"z".to_string()));
    assert!(is_called(&graph, &"y".to_string()));
    assert!(!is_called(&graph, &"a".to_string()));
    assert!(!is_called(&NameMap::new(), &"a".to_string()));
}

#[test]
fn long_function_is_reported_above_fifty_lines() {
    let mut long = function("long", "private");
    long.line_count = 51;
    let mut short = function("short", "private");
    short.line_count = 50;
    let found = suggest(&[short, long], &[], &[], &NameMap::new(), &NameMap::new());
    assert_eq!(
        found,
        vec![
            "Function 'long' in a.rs is too long (51 lines). Consider breaking it into smaller functions."
                .to_string()
        ]
    );
}

#[test]
fn complex_function_is_reported_above_ten() {
    let mut complex = function("tangled", "public");
    complex.complexity = 11;
    let mut simple = function("plain", "public");
    simple.complexity = 10;
    let found = suggest(&[complex, simple], &[], &[], &NameMap::new(), &NameMap::new());
    assert_eq!(
        found,
        vec![
            "Function 'tangled' in a.rs has high complexity (11). Consider simplifying the logic."
                .to_string()
        ]
    );
}

#[test]
fn many_parameters_are_reported_above_five() {
    let mut wide = function("wide", "public");
    wide.param_count = 6;
    let mut narrow = function("narrow", "public");
    narrow.param_count = 5;
    let found = suggest(&[narrow, wide], &[], &[], &NameMap::new(), &NameMap::new());
    assert_eq!(
        found,
        vec![
            "Function 'wide' in a.rs has too many parameters (6). Consider using a struct or builder pattern."
                .to_string()
        ]
    );
}

#[test]
fn large_struct_and_enum_are_reported_above_ten() {
    let record = |name: &str, field_count: usize| StructInfo {
        name: name.to_string(),
        field_count,
        file: "s.rs".to_string(),
        range: at(2),
    };
    let choice = |name: &str, variant_count: usize| EnumInfo {
        name: name.to_string(),
        variant_count,
        file: "e.rs".to_string(),
        range: at(3),
    };
    let found = suggest(
        &[],
        &[record("Small", 10), record("Big", 11)],
        &[choice("Many", 12), choice("Few", 10)],
        &NameMap::new(),
        &NameMap::new(),
    );
    assert_eq!(
        found,
        vec![
            "Struct 'Big' in s.rs has too many fields (11). Consider splitting into smaller structs."
                .to_string(),
            "Enum 'Many' in e.rs has too many variants (12). Consider using separate enums or structs."
                .to_string(),
        ]
    );
}

#[test]
fn busy_caller_counts_call_sites_with_repeats() {
    let eleven: Vec<&str> = vec!["x"; 11];
    let ten: Vec<&str> = vec!["y"; 10];
    let graph = calls(&[("calm", &ten), ("busy", &eleven)]);
    let found = suggest(&[], &[], &[], &graph, &NameMap::new());
    assert_eq!(
        found,
        vec![
            "Function 'busy' calls too many other functions (11). Consider reducing coupling."
                .to_string(),
            "Function 'x' is called by too many functions (11). Consider introducing an interface or facade."
                .to_string(),
        ]
    );
}

#[test]
fn popular_callee_counts_edges_over_all_callers() {
    let graph = calls(&[
        ("a", &["t", "t", "t", "t", "u"]),
        ("b", &["u", "t", "t", "t", "t"]),
        ("c", &["t", "t", "t"]),
    ]);
    let tally = count_callers(&graph);
    assert_eq!(tally.len(), 2);
    assert_eq!(tally.key_at(0), "t");
    assert_eq!(tally.get("t"), Some(&11));
    assert_eq!(tally.get("u"), Some(&2));
    let found = suggest(&[], &[], &[], &graph, &NameMap::new());
    assert_eq!(
        found,
        vec![
            "Function 't' is called by too many functions (11). Consider introducing an interface or facade."
                .to_string()
        ]
    );
    let ten = calls(&[("a", &["t"; 5]), ("b", &["t"; 5])]);
    assert_eq!(suggest(&[], &[], &[], &ten, &NameMap::new()), Vec::<String>::new());
}

#[test]
fn widely_used_struct_is_reported_above_ten_places() {
    let record = |name: &str| StructInfo {
        name: name.to_string(),
        field_count: 1,
        file: "s.rs".to_string(),
        range: at(2),
    };
    let found = suggest(&[], &[record("Hub")], &[], &NameMap::new(), &usages("Hub", 11));
    assert_eq!(
        found,
        vec![
            "Struct 'Hub' in s.rs is used in too many places (11). Consider breaking it into smaller components."
                .to_string()
        ]
    );
    let quiet = suggest(&[], &[record("Hub")], &[], &NameMap::new(), &usages("Hub", 10));
    assert_eq!(quiet, Vec::<String>::new());
    let other = suggest(&[], &[record("Hub")], &[], &NameMap::new(), &usages("Other", 20));
    assert_eq!(other, Vec::<String>::new());
}

#[test]
fn one_declaration_may_be_named_by_several_rules_in_rule_order() {
    let mut bad = function("bad", "private");
    bad.line_count = 60;
    bad.complexity = 20;
    bad.param_count = 7;
    let mut worse = function("worse", "private");
    worse.line_count = 100;
    let found = suggest(&[bad, worse], &[], &[], &NameMap::new(), &NameMap::new());
    let heads: Vec<&str> = found.iter().map(|s| &s[..s.find(" (").unwrap()]).collect();
    assert_eq!(
        heads,
        vec![
            "Function 'bad' in a.rs is too long",
            "Function 'worse' in a.rs is too long",
            "Function 'bad' in a.rs has high complexity",
            "Function 'bad' in a.rs has too many parameters",
        ]
    );
}
