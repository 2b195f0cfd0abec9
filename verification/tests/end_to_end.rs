//! The operations on real source texts: each text is parsed, its tree is
//! converted node by node, and the library works on the converted tree.

use code_intel::cache::MyServer;
use code_intel::models::{
    CheckFileParams, FindReferencesParams, GotoDefinitionParams, Position, Range,
};
use code_intel::syntax::ParsedFile;
use code_intel::visitors::{
    CallGraphCollector, ModuleDependencyCollector, ReferenceFinder, SymbolCollector,
    TypeUsageCollector,
};
use code_intel::syntax::{BranchKind, Ident, Node, SyntaxTree, Visibility};
use syn::visit::{self, Visit};

/// Parses `code` and converts the tree; `None` where the text does not parse.
fn parse_tree(code: &str) -> Option<SyntaxTree> {
    proc_macro2::extra::invalidate_current_thread_spans();
    let file = syn::parse_file(code).ok()?;
    let mut builder = Builder { stack: Vec::new() };
    let nodes = builder.collect(|b| visit::visit_file(b, &file));
    Some(SyntaxTree { nodes })
}

fn ident(token: &syn::Ident) -> Ident {
    let (start, end) = (token.span().start(), token.span().end());
    Ident {
        name: token.to_string(),
        range: Range {
            start: Position { line: start.line, character: start.column },
            end: Position { line: end.line, character: end.column },
        },
    }
}

struct Builder {
    stack: Vec<Vec<Node>>,
}

impl Builder {
    /// The nodes that `walk` emits, in order.
    fn collect<F: FnOnce(&mut Self)>(&mut self, walk: F) -> Vec<Node> {
        self.stack.push(Vec::new());
        walk(self);
        self.stack.pop().unwrap_or_default()
    }

    /// What `walk` emits as one node.
    fn one<F: FnOnce(&mut Self)>(&mut self, walk: F) -> Node {
        let mut nodes = self.collect(walk);
        if nodes.len() == 1 {
            nodes.remove(0)
        } else {
            Node::Other { children: nodes }
        }
    }

    fn other<F: FnOnce(&mut Self)>(&mut self, walk: F) -> Node {
        Node::Other { children: self.collect(walk) }
    }

    fn emit(&mut self, node: Node) {
        if let Some(top) = self.stack.last_mut() {
            top.push(node);
        }
    }

    fn branch<F: FnOnce(&mut Self)>(&mut self, kind: BranchKind, walk: F) {
        let children = self.collect(walk);
        self.emit(Node::Branch { kind, children });
    }

    fn leading(&mut self, attrs: &[syn::Attribute], vis: Option<&syn::Visibility>) -> Vec<Node> {
        self.collect(|b| {
            for attr in attrs {
                b.visit_attribute(attr);
            }
            if let Some(vis) = vis {
                b.visit_visibility(vis);
            }
        })
    }
}

impl<'ast> Visit<'ast> for Builder {
    fn visit_ident(&mut self, i: &'ast syn::Ident) {
        self.emit(Node::Ident(ident(i)));
    }

    fn visit_path(&mut self, i: &'ast syn::Path) {
        let segments = self.collect(|b| visit::visit_path(b, i));
        self.emit(Node::Path { segments });
    }

    fn visit_path_segment(&mut self, i: &'ast syn::PathSegment) {
        let arguments = self.collect(|b| b.visit_path_arguments(&i.arguments));
        self.emit(Node::Segment { ident: ident(&i.ident), arguments });
    }

    fn visit_type_path(&mut self, i: &'ast syn::TypePath) {
        let qualifier = self.collect(|b| {
            if let Some(qself) = &i.qself {
                b.visit_qself(qself);
            }
        });
        let path = self.one(|b| b.visit_path(&i.path));
        self.emit(Node::TypePath { qualifier, path: Box::new(path) });
    }

    fn visit_expr_path(&mut self, i: &'ast syn::ExprPath) {
        let qualifier = self.collect(|b| {
            for attr in &i.attrs {
                b.visit_attribute(attr);
            }
            if let Some(qself) = &i.qself {
                b.visit_qself(qself);
            }
        });
        let path = self.one(|b| b.visit_path(&i.path));
        self.emit(Node::ExprPath { qualifier, path: Box::new(path) });
    }

    fn visit_item(&mut self, i: &'ast syn::Item) {
        match i {
            syn::Item::Fn(_)
            | syn::Item::Struct(_)
            | syn::Item::Enum(_)
            | syn::Item::Trait(_)
            | syn::Item::Use(_) => visit::visit_item(self, i),
            _ => {
                let node = self.other(|b| visit::visit_item(b, i));
                self.emit(node);
            }
        }
    }

    fn visit_item_fn(&mut self, i: &'ast syn::ItemFn) {
        let leading = self.collect(|b| {
            for attr in &i.attrs {
                b.visit_attribute(attr);
            }
            b.visit_visibility(&i.vis);
            if let Some(abi) = &i.sig.abi {
                b.visit_abi(abi);
            }
        });
        let generics = self.collect(|b| b.visit_generics(&i.sig.generics));
        let params = i.sig.inputs.iter().map(|arg| self.other(|b| b.visit_fn_arg(arg))).collect();
        let output = self.collect(|b| {
            if let Some(variadic) = &i.sig.variadic {
                b.visit_variadic(variadic);
            }
            b.visit_return_type(&i.sig.output);
        });
        let body = self.collect(|b| visit::visit_block(b, &i.block));
        self.emit(Node::Function {
            leading,
            visibility: match i.vis {
                syn::Visibility::Public(_) => Visibility::Public,
                syn::Visibility::Restricted(_) => Visibility::Restricted,
                syn::Visibility::Inherited => Visibility::Inherited,
            },
            name: ident(&i.sig.ident),
            generics,
            params,
            output,
            body,
        });
    }

    fn visit_item_struct(&mut self, i: &'ast syn::ItemStruct) {
        let leading = self.leading(&i.attrs, Some(&i.vis));
        let generics = self.collect(|b| b.visit_generics(&i.generics));
        let fields = i.fields.iter().map(|field| self.other(|b| b.visit_field(field))).collect();
        self.emit(Node::Struct { leading, name: ident(&i.ident), generics, fields });
    }

    fn visit_item_enum(&mut self, i: &'ast syn::ItemEnum) {
        let leading = self.leading(&i.attrs, Some(&i.vis));
        let generics = self.collect(|b| b.visit_generics(&i.generics));
        let variants = i.variants.iter().map(|v| self.other(|b| b.visit_variant(v))).collect();
        self.emit(Node::Enum { leading, name: ident(&i.ident), generics, variants });
    }

    fn visit_item_trait(&mut self, i: &'ast syn::ItemTrait) {
        let leading = self.collect(|b| {
            for attr in &i.attrs {
                b.visit_attribute(attr);
            }
            b.visit_visibility(&i.vis);
            if let Some(restriction) = &i.restriction {
                b.visit_impl_restriction(restriction);
            }
        });
        let members = self.collect(|b| {
            b.visit_generics(&i.generics);
            for bound in &i.supertraits {
                b.visit_type_param_bound(bound);
            }
            for item in &i.items {
                b.visit_trait_item(item);
            }
        });
        self.emit(Node::Trait { leading, name: ident(&i.ident), members });
    }

    fn visit_item_use(&mut self, i: &'ast syn::ItemUse) {
        let leading = self.leading(&i.attrs, Some(&i.vis));
        let tree = self.one(|b| b.visit_use_tree(&i.tree));
        self.emit(Node::Use { leading, tree: Box::new(tree) });
    }

    fn visit_use_path(&mut self, i: &'ast syn::UsePath) {
        let tree = self.one(|b| b.visit_use_tree(&i.tree));
        self.emit(Node::UsePath { ident: ident(&i.ident), tree: Box::new(tree) });
    }

    fn visit_use_name(&mut self, i: &'ast syn::UseName) {
        self.emit(Node::UseName { ident: ident(&i.ident) });
    }

    fn visit_use_rename(&mut self, i: &'ast syn::UseRename) {
        self.emit(Node::UseRename { ident: ident(&i.ident), alias: ident(&i.rename) });
    }

    fn visit_use_glob(&mut self, _: &'ast syn::UseGlob) {
        self.emit(Node::UseGlob);
    }

    fn visit_use_group(&mut self, i: &'ast syn::UseGroup) {
        let items = self.collect(|b| visit::visit_use_group(b, i));
        self.emit(Node::UseGroup { items });
    }

    fn visit_local(&mut self, i: &'ast syn::Local) {
        let pattern = self.collect(|b| {
            for attr in &i.attrs {
                b.visit_attribute(attr);
            }
            b.visit_pat(&i.pat);
        });
        let init = i.init.as_ref().map(|init| Box::new(self.one(|b| b.visit_expr(&init.expr))));
        let else_branch = self.collect(|b| {
            if let Some((_, diverge)) = i.init.as_ref().and_then(|init| init.diverge.as_ref()) {
                b.visit_expr(diverge);
            }
        });
        self.emit(Node::Local { pattern, init, else_branch });
    }

    fn visit_stmt_macro(&mut self, i: &'ast syn::StmtMacro) {
        let node = self.other(|b| visit::visit_stmt_macro(b, i));
        self.emit(node);
    }

    fn visit_expr(&mut self, i: &'ast syn::Expr) {
        match i {
            syn::Expr::If(_)
            | syn::Expr::Match(_)
            | syn::Expr::Loop(_)
            | syn::Expr::While(_)
            | syn::Expr::ForLoop(_)
            | syn::Expr::Block(_)
            | syn::Expr::Call(_)
            | syn::Expr::MethodCall(_)
            | syn::Expr::Path(_) => visit::visit_expr(self, i),
            syn::Expr::Binary(binary)
                if matches!(binary.op, syn::BinOp::And(_) | syn::BinOp::Or(_)) =>
            {
                visit::visit_expr(self, i)
            }
            _ => {
                let node = self.other(|b| visit::visit_expr(b, i));
                self.emit(node);
            }
        }
    }

    fn visit_expr_if(&mut self, i: &'ast syn::ExprIf) {
        self.branch(BranchKind::If, |b| visit::visit_expr_if(b, i));
    }

    fn visit_expr_match(&mut self, i: &'ast syn::ExprMatch) {
        self.branch(BranchKind::Match, |b| visit::visit_expr_match(b, i));
    }

    fn visit_expr_loop(&mut self, i: &'ast syn::ExprLoop) {
        self.branch(BranchKind::Loop, |b| visit::visit_expr_loop(b, i));
    }

    fn visit_expr_while(&mut self, i: &'ast syn::ExprWhile) {
        self.branch(BranchKind::While, |b| visit::visit_expr_while(b, i));
    }

    fn visit_expr_for_loop(&mut self, i: &'ast syn::ExprForLoop) {
        self.branch(BranchKind::For, |b| visit::visit_expr_for_loop(b, i));
    }

    fn visit_expr_binary(&mut self, i: &'ast syn::ExprBinary) {
        match i.op {
            syn::BinOp::And(_) => self.branch(BranchKind::And, |b| visit::visit_expr_binary(b, i)),
            syn::BinOp::Or(_) => self.branch(BranchKind::Or, |b| visit::visit_expr_binary(b, i)),
            _ => visit::visit_expr_binary(self, i),
        }
    }

    fn visit_expr_block(&mut self, i: &'ast syn::ExprBlock) {
        let leading = self.collect(|b| {
            for attr in &i.attrs {
                b.visit_attribute(attr);
            }
            if let Some(label) = &i.label {
                b.visit_label(label);
            }
        });
        let statements = self.collect(|b| visit::visit_block(b, &i.block));
        self.emit(Node::Block { leading, statements });
    }

    fn visit_expr_call(&mut self, i: &'ast syn::ExprCall) {
        let leading = self.leading(&i.attrs, None);
        let callee = self.one(|b| b.visit_expr(&i.func));
        let args = self.collect(|b| {
            for arg in &i.args {
                b.visit_expr(arg);
            }
        });
        self.emit(Node::Call { leading, callee: Box::new(callee), args });
    }

    fn visit_expr_method_call(&mut self, i: &'ast syn::ExprMethodCall) {
        let leading = self.leading(&i.attrs, None);
        let receiver = self.one(|b| b.visit_expr(&i.receiver));
        let generics = self.collect(|b| {
            if let Some(turbofish) = &i.turbofish {
                b.visit_angle_bracketed_generic_arguments(turbofish);
            }
        });
        let args = self.collect(|b| {
            for arg in &i.args {
                b.visit_expr(arg);
            }
        });
        self.emit(Node::MethodCall {
            leading,
            receiver: Box::new(receiver),
            method: ident(&i.method),
            generics,
            args,
        });
    }
}

fn parsed(path: &str, code: &str) -> ParsedFile {
    ParsedFile { path: path.to_string(), source: code.to_string(), tree: parse_tree(code) }
}

fn range(line: usize, from: usize, to: usize) -> Range {
    Range {
        start: Position { line, character: from },
        end: Position { line, character: to },
    }
}

fn check(server: &mut MyServer, path: &str, code: &str) -> usize {
    server.check_file(CheckFileParams { path: path.to_string() }, code.to_string()).len()
}

fn calls_of(collector: &CallGraphCollector, caller: &str) -> Option<Vec<String>> {
    collector.calls.get(caller).cloned()
}

fn complexity_of(code: &str, name: &str) -> usize {
    let tree = parse_tree(code).unwrap();
    let mut collector = CallGraphCollector::new("c.rs".to_string());
    collector.visit_file(&tree);
    collector.function_info.get(name).unwrap().complexity
}

#[test]
fn test_check_file_valid() {
    let valid_code = "fn main() {\n    println!(\"Hello, world!\");\n}";
    let mut server = MyServer::new();
    let params = CheckFileParams { path: "valid.rs".to_string() };
    let result = server.check_file(params, valid_code.to_string());
    assert_eq!(result.len(), 0);
    assert_eq!(server.cache.get("valid.rs"), Some(valid_code.to_string()));
}

#[test]
fn test_check_file_invalid() {
    let invalid_code = "fn main() {\n    println!(\"Hello, world!\" // missing )\n}";
    let mut server = MyServer::new();
    let params = CheckFileParams { path: "invalid.rs".to_string() };
    let result = server.check_file(params, invalid_code.to_string());
    assert_eq!(result.len(), 1);
    assert_eq!(result[0].severity, "error");
    assert_eq!(server.cache.get("invalid.rs"), None);
    assert_eq!(server.cache.get_all().len(), 0);
}

#[test]
fn invalid_text_keeps_the_cached_text() {
    let mut server = MyServer::new();
    assert_eq!(check(&mut server, "a.rs", "fn a() {}"), 0);
    assert_eq!(check(&mut server, "a.rs", "fn a() {"), 1);
    assert_eq!(server.cache.get("a.rs"), Some("fn a() {}".to_string()));
    assert_eq!(check(&mut server, "a.rs", "fn b() {}"), 0);
    assert_eq!(server.cache.get("a.rs"), Some("fn b() {}".to_string()));
    assert_eq!(server.cache.get_all().len(), 1);
}

#[test]
fn diagnostic_carries_the_parser_error() {
    let code = "fn main() {\n    let x = ;\n}";
    let error = syn::parse_file(code).err().unwrap();
    let (start, end) = (error.span().start(), error.span().end());
    let mut server = MyServer::new();
    let found = server.check_file(CheckFileParams { path: "e.rs".to_string() }, code.to_string());
    assert_eq!(found.len(), 1);
    assert_eq!(found[0].message, error.to_string());
    assert_ne!(found[0].message, code);
    assert_eq!(found[0].range.start, Position { line: start.line, character: start.column });
    assert_eq!(found[0].range.end, Position { line: end.line, character: end.column });
    assert_eq!(found[0].range.start.line, 2);
    assert_eq!(found[0].severity, "error");
}

#[test]
fn parser_accepts_well_formed_texts_only() {
    assert!(code_intel::parse::is_well_formed("fn a() {}"));
    assert!(code_intel::parse::is_well_formed(""));
    assert!(!code_intel::parse::is_well_formed("fn a( {"));
    assert!(!code_intel::parse::is_well_formed("fn a() { let x = ; }"));
}

#[test]
fn try_check_file_checks_short_texts() {
    let mut server = MyServer::new();
    let params = CheckFileParams { path: "t.rs".to_string() };
    let outcome = code_intel::tools::check_file::try_check_file(
        &mut server,
        params,
        "struct T;".to_string(),
    );
    assert_eq!(outcome.map(|found| found.len()), Some(0));
    assert_eq!(server.cache.get("t.rs"), Some("struct T;".to_string()));
}

#[test]
fn test_goto_definition() {
    let code = "fn foo() {\n    println!(\"foo\");\n}\n\nfn main() {\n    foo();\n}";
    let mut server = MyServer::new();
    assert_eq!(check(&mut server, "one.rs", code), 0);
    let files: Vec<ParsedFile> =
        server.cache.get_all().into_iter().map(|(path, text)| parsed(&path, &text)).collect();
    let params = GotoDefinitionParams { name: "foo".to_string() };
    let result = server.goto_definition(params, &files);
    assert_eq!(result.len(), 1);
    assert_eq!(result[0].name, "foo");
    assert_eq!(result[0].kind, "fn");
    assert_eq!(result[0].file, "one.rs");
    assert_eq!(result[0].range, range(1, 3, 6));
}

#[test]
fn goto_definition_finds_one_entry_per_declaration() {
    let mut server = MyServer::new();
    assert_eq!(check(&mut server, "lib.rs", "fn foo() {}\n"), 0);
    assert_eq!(check(&mut server, "main.rs", "fn main() { foo(); }\n"), 0);
    assert_eq!(check(&mut server, "more.rs", "mod m { pub fn foo() {} struct foo; }\n"), 0);
    let files: Vec<ParsedFile> =
        server.cache.get_all().into_iter().map(|(path, text)| parsed(&path, &text)).collect();
    let found = server.goto_definition(GotoDefinitionParams { name: "foo".to_string() }, &files);
    let places: Vec<(String, String)> =
        found.iter().map(|s| (s.file.clone(), s.kind.clone())).collect();
    assert_eq!(
        places,
        vec![
            ("lib.rs".to_string(), "fn".to_string()),
            ("more.rs".to_string(), "fn".to_string()),
            ("more.rs".to_string(), "struct".to_string()),
        ]
    );
}

#[test]
fn files_outside_the_cache_are_not_searched() {
    let server = MyServer::new();
    let files = vec![parsed("lib.rs", "fn foo() {}\n")];
    let found = server.goto_definition(GotoDefinitionParams { name: "foo".to_string() }, &files);
    assert_eq!(found.len(), 0);
    let refs = server.find_references(FindReferencesParams { name: "foo".to_string() }, &files);
    assert_eq!(refs.len(), 0);
}

#[test]
fn test_index_workspace() {
    let files = vec![parsed("lib.rs", "fn foo() {}\n"), parsed("main.rs", "fn main() { foo(); }\n")];
    let mut server = MyServer::new();
    let graphs = server.index_workspace(&files);
    let names: Vec<String> = graphs.function_info.iter().map(|f| f.name.clone()).collect();
    assert_eq!(names, vec!["foo".to_string(), "main".to_string()]);
    assert_eq!(graphs.call_graph.calls.len(), 2);
    assert_eq!(graphs.call_graph.calls.get("main"), Some(&vec!["foo".to_string()]));
    assert_eq!(graphs.call_graph.calls.get("foo"), Some(&Vec::<String>::new()));
    assert!(!graphs.unused_functions.contains(&"foo".to_string()));
    assert_eq!(graphs.unused_functions.len(), 0);
    assert_eq!(graphs.refactoring_suggestions.len(), 0);
    assert_eq!(server.cache.get("lib.rs"), Some("fn foo() {}\n".to_string()));
    assert_eq!(server.cache.get("main.rs"), Some("fn main() { foo(); }\n".to_string()));
    let mut symbols = SymbolCollector::new("lib.rs".to_string());
    symbols.visit_file(files[0].tree.as_ref().unwrap());
    symbols.file = "main.rs".to_string();
    symbols.visit_file(files[1].tree.as_ref().unwrap());
    let found: Vec<String> = symbols.out.iter().map(|s| s.name.clone()).collect();
    assert_eq!(found, vec!["foo".to_string(), "main".to_string()]);
}

#[test]
fn index_workspace_skips_files_that_do_not_parse() {
    let files = vec![parsed("bad.rs", "fn broken( {"), parsed("good.rs", "fn fine() {}")];
    assert!(files[0].tree.is_none());
    let mut server = MyServer::new();
    let graphs = server.index_workspace(&files);
    assert_eq!(graphs.function_info.len(), 1);
    assert_eq!(graphs.function_info[0].name, "fine");
    assert_eq!(graphs.unused_functions, vec!["fine".to_string()]);
    assert_eq!(server.cache.get("bad.rs"), None);
    assert_eq!(server.cache.get("good.rs"), Some("fn fine() {}".to_string()));
    assert_eq!(server.cache.get_all().len(), 1);
}

#[test]
fn index_workspace_keeps_the_cache_free_of_broken_texts() {
    let mut server = MyServer::new();
    assert_eq!(check(&mut server, "kept.rs", "fn kept() {}"), 0);
    let broken = "fn broken( {";
    let disguised = code_intel::syntax::ParsedFile {
        path: "disguised.rs".to_string(),
        source: broken.to_string(),
        tree: parse_tree("fn pretended() {}"),
    };
    let graphs = server.index_workspace(&vec![parsed("bad.rs", broken), disguised]);
    assert_eq!(graphs.function_info.len(), 0);
    assert_eq!(server.cache.get("bad.rs"), None);
    assert_eq!(server.cache.get("disguised.rs"), None);
    assert_eq!(server.cache.get_all(), vec![("kept.rs".to_string(), "fn kept() {}".to_string())]);
    for (_, text) in server.cache.get_all() {
        assert!(syn::parse_file(&text).is_ok());
    }
}

#[test]
fn index_workspace_walks_what_is_cached() {
    let mut server = MyServer::new();
    assert_eq!(check(&mut server, "same.rs", "fn same() {}"), 0);
    assert_eq!(check(&mut server, "stale.rs", "fn older() {}"), 0);
    let files = vec![parsed("same.rs", "fn same() {}"), parsed("stale.rs", "fn newer() {}")];
    let graphs = server.index_workspace(&files);
    let names: Vec<String> = graphs.function_info.iter().map(|f| f.name.clone()).collect();
    assert_eq!(names, vec!["same".to_string()]);
    assert_eq!(server.cache.get("stale.rs"), Some("fn older() {}".to_string()));
}

#[test]
fn lookups_skip_files_whose_text_is_not_the_cached_one() {
    let mut server = MyServer::new();
    assert_eq!(check(&mut server, "lib.rs", "fn foo() {}\n"), 0);
    let stale = vec![parsed("lib.rs", "fn foo() { foo(); }\n")];
    let found = server.goto_definition(GotoDefinitionParams { name: "foo".to_string() }, &stale);
    assert_eq!(found.len(), 0);
    let refs = server.find_references(FindReferencesParams { name: "foo".to_string() }, &stale);
    assert_eq!(refs.len(), 0);
    let fresh = vec![parsed("lib.rs", "fn foo() {}\n")];
    let found = server.goto_definition(GotoDefinitionParams { name: "foo".to_string() }, &fresh);
    assert_eq!(found.len(), 1);
    let refs = server.find_references(FindReferencesParams { name: "foo".to_string() }, &fresh);
    assert_eq!(refs.len(), 1);
}

#[test]
fn every_cached_file_is_searched() {
    let mut server = MyServer::new();
    assert_eq!(check(&mut server, "a.rs", "fn foo() {}"), 0);
    assert_eq!(check(&mut server, "b.rs", "struct Other;"), 0);
    assert_eq!(check(&mut server, "c.rs", "fn bar() { foo(); }\nmod m { fn foo() {} }"), 0);
    let files: Vec<ParsedFile> =
        server.cache.get_all().into_iter().map(|(path, text)| parsed(&path, &text)).collect();
    let found = server.goto_definition(GotoDefinitionParams { name: "foo".to_string() }, &files);
    let places: Vec<&str> = found.iter().map(|s| s.file.as_str()).collect();
    assert_eq!(places, vec!["a.rs", "c.rs"]);
    let refs = server.find_references(FindReferencesParams { name: "foo".to_string() }, &files);
    let places: Vec<&str> = refs.iter().map(|r| r.file.as_str()).collect();
    assert_eq!(places, vec!["a.rs", "c.rs", "c.rs"]);
}

#[test]
fn visibility_tiers_collapse_to_private() {
    let code = "pub fn a() {}\npub(crate) fn b() {}\npub(super) fn c() {}\nfn d() {}\n";
    let tree = parse_tree(code).unwrap();
    let mut collector = CallGraphCollector::new("v.rs".to_string());
    collector.visit_file(&tree);
    let words: Vec<&str> = ["a", "b", "c", "d"]
        .iter()
        .map(|name| collector.function_info.get(name).unwrap().visibility.as_str())
        .collect();
    assert_eq!(words, vec!["public", "private", "private", "private"]);
}

#[test]
fn test_find_references() {
    let files = vec![parsed("lib.rs", "fn foo() {}\n"), parsed("main.rs", "fn main() { foo(); }\n")];
    let mut server = MyServer::new();
    server.index_workspace(&files);
    let params = FindReferencesParams { name: "foo".to_string() };
    let result = server.find_references(params, &files);
    assert_eq!(result.len(), 2);
    assert_eq!(result[0].file, "lib.rs");
    assert_eq!(result[0].range, range(1, 3, 6));
    assert_eq!(result[1].file, "main.rs");
    assert_eq!(result[1].range, range(1, 12, 15));
}

#[test]
fn type_reference_is_reported_twice() {
    let tree = parse_tree("struct Foo;\nfn f(x: Foo) {}\n").unwrap();
    let mut finder = ReferenceFinder::new("Foo".to_string(), "t.rs".to_string());
    finder.visit_file(&tree);
    let found: Vec<Range> = finder.matches.iter().map(|m| m.range).collect();
    assert_eq!(found, vec![range(1, 7, 10), range(2, 8, 11), range(2, 8, 11)]);
}

#[test]
fn symbols_come_in_walk_order_and_twice_the_same() {
    let code = "trait T { fn m(&self); }\nenum E { A }\nfn f() { struct Inner; fn g() {} }\nmod m { struct S; }\n";
    let tree = parse_tree(code).unwrap();
    let mut first = SymbolCollector::new("s.rs".to_string());
    first.visit_file(&tree);
    let mut second = SymbolCollector::new("s.rs".to_string());
    second.visit_file(&tree);
    let list = |c: &SymbolCollector| -> Vec<(String, String)> {
        c.out.iter().map(|s| (s.kind.clone(), s.name.clone())).collect()
    };
    let expected: Vec<(String, String)> =
        [("trait", "T"), ("enum", "E"), ("fn", "f"), ("struct", "Inner"), ("fn", "g"), ("struct", "S")]
            .iter()
            .map(|(k, n)| (k.to_string(), n.to_string()))
            .collect();
    assert_eq!(list(&first), expected);
    assert_eq!(list(&first), list(&second));
    let ranges = |c: &SymbolCollector| -> Vec<Range> { c.out.iter().map(|s| s.range).collect() };
    assert_eq!(ranges(&first), ranges(&second));
}

#[test]
fn call_edges_of_a_and_b() {
    let tree = parse_tree("fn a() { b(); }\nfn b() {}\n").unwrap();
    let mut collector = CallGraphCollector::new("c.rs".to_string());
    collector.visit_file(&tree);
    assert_eq!(calls_of(&collector, "a"), Some(vec!["b".to_string()]));
    assert_eq!(calls_of(&collector, "b"), Some(vec![]));
    assert_eq!(collector.calls.len(), 2);
    assert!(collector.current_function.is_none());
}

#[test]
fn method_calls_and_path_calls_make_edges() {
    let code = "fn run(v: Vec<u8>) { v.len(); std::mem::drop(v); (make())(); }\nconst X: usize = size();\n";
    let tree = parse_tree(code).unwrap();
    let mut collector = CallGraphCollector::new("c.rs".to_string());
    collector.visit_file(&tree);
    assert_eq!(
        calls_of(&collector, "run"),
        Some(vec!["len".to_string(), "drop".to_string(), "make".to_string()])
    );
    assert_eq!(collector.calls.len(), 1);
}

#[test]
fn caller_is_restored_after_a_nested_function() {
    let tree = parse_tree("fn outer() { before(); fn inner() { x(); } after(); }\n").unwrap();
    let mut collector = CallGraphCollector::new("c.rs".to_string());
    collector.visit_file(&tree);
    assert_eq!(calls_of(&collector, "outer"), Some(vec!["before".to_string(), "after".to_string()]));
    assert_eq!(calls_of(&collector, "inner"), Some(vec!["x".to_string()]));
}

#[test]
fn function_measures() {
    let code = "pub fn open(a: u8, b: u8) {}\nfn closed() {}\nstruct S;\nimpl S { fn method(&self, a: u8) {} }\n";
    let tree = parse_tree(code).unwrap();
    let mut collector = CallGraphCollector::new("m.rs".to_string());
    collector.visit_file(&tree);
    assert_eq!(collector.function_info.len(), 2);
    let open = collector.function_info.get("open").unwrap();
    assert_eq!(open.visibility, "public");
    assert_eq!(open.param_count, 2);
    assert_eq!(open.line_count, 1);
    assert_eq!(open.complexity, 1);
    assert_eq!(open.file, "m.rs");
    assert_eq!(open.range, range(1, 7, 11));
    let closed = collector.function_info.get("closed").unwrap();
    assert_eq!(closed.visibility, "private");
    assert_eq!(closed.param_count, 0);
}

#[test]
fn complexity_counts_top_level_branches() {
    assert_eq!(complexity_of("fn f() { g(); let x = 1; }", "f"), 1);
    assert_eq!(complexity_of("fn f(a: bool) { if a { g(); } }", "f"), 2);
    assert_eq!(complexity_of("fn f(a: bool) { if a {} loop {} }", "f"), 3);
    assert_eq!(complexity_of("fn f(a: u8) { match a { _ => {} } while false {} for _ in 0..1 {} }", "f"), 4);
    assert_eq!(complexity_of("fn f(a: bool, b: bool) -> bool { a && b }", "f"), 2);
    assert_eq!(complexity_of("fn f(a: bool, b: bool) { let c = a || b; }", "f"), 2);
}

#[test]
fn complexity_is_shallow() {
    assert_eq!(complexity_of("fn f(a: bool, b: bool) { if a && b { if a {} } }", "f"), 2);
    assert_eq!(complexity_of("fn f(a: bool, b: bool) { let mut c = a; c = a && b; }", "f"), 1);
    assert_eq!(complexity_of("fn f(a: bool) { { if a {} { loop {} } } }", "f"), 3);
    assert_eq!(complexity_of("fn f(a: bool) { unsafe { if a {} } }", "f"), 1);
    assert_eq!(complexity_of("fn f(a: bool) { g(a || a); }", "f"), 1);
    assert_eq!(complexity_of("fn f(a: bool) -> bool { return a || a; }", "f"), 1);
    assert_eq!(complexity_of("fn f(a: bool) { let b = { if a {} 1 }; }", "f"), 2);
}

#[test]
fn struct_and_enum_counts_and_usages() {
    let code = "struct Unit;\nstruct Pair(u8, u16);\nstruct Named { a: Pair, b: Unit, c: Pair }\nenum Kind { A, B(u8), C { x: u8 } }\n";
    let tree = parse_tree(code).unwrap();
    let mut collector = TypeUsageCollector::new("t.rs".to_string());
    collector.visit_file(&tree);
    assert_eq!(collector.struct_info.get("Unit").unwrap().field_count, 0);
    assert_eq!(collector.struct_info.get("Pair").unwrap().field_count, 2);
    assert_eq!(collector.struct_info.get("Named").unwrap().field_count, 3);
    assert_eq!(collector.enum_info.get("Kind").unwrap().variant_count, 3);
    assert_eq!(collector.enum_info.get("Kind").unwrap().range, range(4, 5, 9));
    assert_eq!(collector.usages.get("Pair").unwrap().len(), 4);
    assert_eq!(collector.usages.get("Unit").unwrap().len(), 2);
    assert_eq!(collector.usages.get("u8").unwrap().len(), 6);
    assert_eq!(collector.usages.get("Pair").unwrap()[0].range, range(3, 18, 22));
    assert_eq!(collector.usages.get("Pair").unwrap()[1].range, range(3, 18, 22));
}

#[test]
fn imports_are_flattened() {
    let code = "use std::collections::HashMap;\nuse a::{b, c::d as e, f::*};\nuse g as h;\n";
    let tree = parse_tree(code).unwrap();
    let mut collector = ModuleDependencyCollector::new("u.rs".to_string());
    collector.visit_file(&tree);
    assert_eq!(collector.dependencies.len(), 1);
    let names: Vec<&str> =
        collector.dependencies.get("u.rs").unwrap().iter().map(|s| s.as_str()).collect();
    assert_eq!(names, vec!["std", "collections", "HashMap", "a", "b", "c", "e", "f", "h"]);
}

#[test]
fn file_without_imports_has_no_entry() {
    let tree = parse_tree("fn f() {}").unwrap();
    let mut collector = ModuleDependencyCollector::new("u.rs".to_string());
    collector.visit_file(&tree);
    assert_eq!(collector.dependencies.len(), 0);
}
