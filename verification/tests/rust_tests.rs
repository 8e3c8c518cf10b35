use analyzer_core::rust::{
    analyze_rust, extract_constant, extract_from_tree, extract_impl_scope, extract_symbols,
    extract_use, RustParser,
};
use analyzer_core::syntax::{NodeSpan, SyntaxNode};
use analyzer_core::typescript::TypeScriptParser;
use analyzer_core::SymbolKind;

fn span(kind: &str, start_byte: usize, end_byte: usize) -> Option<NodeSpan> {
    Some(NodeSpan { kind: kind.to_string(), start_byte, end_byte })
}

#[test]
fn parser_test_parse_simple_function() {
    let mut parser = RustParser::new().unwrap();
    let source = "fn hello() {\n    println!(\"Hello\");\n}";
    let tree = parser.parse(source).unwrap();

    let root = tree.root_node();
    assert_eq!(root.kind(), "source_file");
    assert!(root.child_count() > 0);

    let mut parser = TypeScriptParser::new().unwrap();
    let source = "function hello(): void {\n    console.log('Hello');\n}";
    let tree = parser.parse(source).unwrap();

    let root = tree.root_node();
    assert_eq!(root.kind(), "program");
    assert!(root.child_count() > 0);
}

#[test]
fn test_parse_struct() {
    let mut parser = RustParser::new().unwrap();
    let source = "struct MyStruct {\n    value: i32,\n}";
    let tree = parser.parse(source).unwrap();

    let root = tree.root_node();
    assert!(root.to_sexp().contains("struct_item"));
}

#[test]
fn parser_test_parse_invalid_syntax() {
    let mut parser = RustParser::new().unwrap();
    let source = "fn hello(\n    // Unclosed parenthesis";
    let tree = parser.parse(source).unwrap();

    assert!(tree.root_node().has_error());

    let mut parser = TypeScriptParser::new().unwrap();
    let source = "function hello(\n    // Unclosed parenthesis";
    let tree = parser.parse(source).unwrap();

    assert!(tree.root_node().has_error());
}

#[test]
fn symbol_extract_test_extract_function() {
    let source = r#"
fn my_function() {
    println!("test");
}
"#;
    let mut parser = RustParser::new().unwrap();
    let tree = parser.parse(source).unwrap();
    let symbols = extract_symbols(&tree, source);

    assert_eq!(symbols.len(), 1);
    assert_eq!(symbols[0].name, "my_function");
    assert!(matches!(symbols[0].kind, SymbolKind::Function));

    let source = r#"
function myFunction() {
    console.log("test");
}
"#;
    let mut parser = TypeScriptParser::new().unwrap();
    let tree = parser.parse(source).unwrap();
    let symbols = analyzer_core::typescript::extract_symbols(&tree, source);

    assert_eq!(symbols.len(), 1);
    assert_eq!(symbols[0].name, "myFunction");
    assert!(matches!(symbols[0].kind, SymbolKind::Function));
}

#[test]
fn test_extract_struct_with_impl() {
    let source = r#"
struct MyStruct {
    value: i32,
}

impl MyStruct {
    fn new() -> Self {
        Self { value: 42 }
    }

    fn get_value(&self) -> i32 {
        self.value
    }
}
"#;
    let mut parser = RustParser::new().unwrap();
    let tree = parser.parse(source).unwrap();
    let symbols = extract_symbols(&tree, source);

    assert!(symbols.iter().any(|s| s.name == "MyStruct" && matches!(s.kind, SymbolKind::Class)));
    assert!(symbols.iter().any(|s| s.name == "new" && matches!(s.kind, SymbolKind::Function)));
    assert!(symbols.iter().any(|s| s.name == "get_value" && matches!(s.kind, SymbolKind::Function)));
}

#[test]
fn test_extract_trait() {
    let source = r#"
trait MyTrait {
    fn do_something(&self);
}
"#;
    let mut parser = RustParser::new().unwrap();
    let tree = parser.parse(source).unwrap();
    let symbols = extract_symbols(&tree, source);

    assert!(symbols.iter().any(|s| s.name == "MyTrait" && matches!(s.kind, SymbolKind::Type)));
}

#[test]
fn test_extract_enum() {
    let source = r#"
enum MyEnum {
    Variant1,
    Variant2(i32),
}
"#;
    let mut parser = RustParser::new().unwrap();
    let tree = parser.parse(source).unwrap();
    let symbols = extract_symbols(&tree, source);

    assert!(symbols.iter().any(|s| s.name == "MyEnum" && matches!(s.kind, SymbolKind::Type)));
}

#[test]
fn test_extract_use() {
    let source = r#"
use std::collections::HashMap;
use anyhow::Result;
"#;
    let mut parser = RustParser::new().unwrap();
    let tree = parser.parse(source).unwrap();
    let symbols = extract_symbols(&tree, source);

    assert!(symbols.iter().any(|s| s.name == "std::collections::HashMap" && matches!(s.kind, SymbolKind::Import)));
    assert!(symbols.iter().any(|s| s.name == "anyhow::Result" && matches!(s.kind, SymbolKind::Import)));
}

#[test]
fn rust_analyze_simple_function() {
    let source = r#"
fn hello_world() {
    println!("Hello, world!");
}
"#;
    let symbols = analyze_rust(source).unwrap();
    assert!(symbols.iter().any(|s| s.name == "hello_world" && matches!(s.kind, SymbolKind::Function)));
}

#[test]
fn test_analyze_struct() {
    let source = r#"
struct MyStruct {
    value: i32,
}

impl MyStruct {
    fn new() -> Self {
        Self { value: 42 }
    }

    fn get_value(&self) -> i32 {
        self.value
    }
}
"#;
    let symbols = analyze_rust(source).unwrap();
    assert!(symbols.iter().any(|s| s.name == "MyStruct" && matches!(s.kind, SymbolKind::Class)));
    assert!(symbols.iter().any(|s| s.name == "new" && matches!(s.kind, SymbolKind::Function)));
    assert!(symbols.iter().any(|s| s.name == "get_value" && matches!(s.kind, SymbolKind::Function)));
}

#[test]
fn test_analyze_trait() {
    let source = r#"
trait MyTrait {
    fn do_something(&self);
}
"#;
    let symbols = analyze_rust(source).unwrap();
    assert!(symbols.iter().any(|s| s.name == "MyTrait" && matches!(s.kind, SymbolKind::Type)));
}

#[test]
fn rust_struct_and_impl_scenario() {
    let source = "struct S { v: i32 }\nimpl S { fn new() -> Self { S{v:0} } }";
    let symbols = analyze_rust(source).unwrap();
    let found: Vec<(&str, SymbolKind, Option<&str>, usize, usize)> = symbols
        .iter()
        .map(|s| (s.name.as_str(), s.kind, s.scope.as_deref(), s.line_start, s.line_end))
        .collect();
    assert_eq!(
        found,
        vec![
            ("S", SymbolKind::Class, None, 0, 0),
            ("new", SymbolKind::Function, Some("S"), 1, 1),
        ]
    );
}

#[test]
fn rust_constants_are_found_at_the_top_level_only() {
    let source = "const A: u8 = 1;\nstatic B: u8 = 2;\nfn f() { const C: u8 = 3; }\ntype T = u8;\n";
    let symbols = analyze_rust(source).unwrap();
    let found: Vec<(&str, SymbolKind)> = symbols.iter().map(|s| (s.name.as_str(), s.kind)).collect();
    assert_eq!(
        found,
        vec![
            ("A", SymbolKind::Variable),
            ("B", SymbolKind::Variable),
            ("f", SymbolKind::Function),
            ("T", SymbolKind::Type),
        ]
    );
}

#[test]
fn rust_impl_without_a_type_holds_nothing() {
    let source = "fn f() {}";
    let function = SyntaxNode::new("function_item", 0, 0).with_field("name", span("identifier", 3, 4));
    let nameless = SyntaxNode::new("impl_item", 0, 0).with_child(function);
    let root = SyntaxNode::new("source_file", 0, 0).with_child(nameless);
    assert_eq!(extract_from_tree(&root, source), vec![]);
    assert_eq!(extract_impl_scope(&SyntaxNode::new("impl_item", 0, 0), source), None);
    let typed = SyntaxNode::new("impl_item", 0, 0).with_field("type", span("type_identifier", 0, 2));
    assert_eq!(extract_impl_scope(&typed, source), Some("fn".to_string()));
}

#[test]
fn rust_use_and_constant_are_named_by_their_fields() {
    let source = "use a::b;";
    let node = SyntaxNode::new("use_declaration", 4, 4)
        .with_field("argument", span("scoped_identifier", 4, 8))
        .with_field("name", span("identifier", 0, 3));
    let import = extract_use(&node, source, Some("m")).unwrap();
    assert_eq!(import.name, "a::b");
    assert_eq!(import.kind, SymbolKind::Import);
    assert_eq!(import.scope, Some("m".to_string()));
    assert_eq!((import.line_start, import.line_end), (4, 4));
    let constant = extract_constant(&node, source).unwrap();
    assert_eq!(constant.name, "use");
    assert_eq!(constant.kind, SymbolKind::Variable);
    assert_eq!(constant.scope, None);
}

#[test]
fn rust_analysis_is_the_same_every_time() {
    let source = "use a::b;\nstruct S;\nimpl S { fn f(&self) {} }\n";
    assert_eq!(analyze_rust(source).unwrap(), analyze_rust(source).unwrap());
    for symbol in analyze_rust(source).unwrap() {
        assert!(symbol.line_start <= symbol.line_end);
    }
}

#[test]
fn rust_parse_with_old_tree_gives_the_symbols_of_the_text() {
    let mut parser = RustParser::new().unwrap();
    let source = "struct S;\nimpl S { fn f(&self) {} }\n";
    let first = parser.parse(source).unwrap();
    let second = parser.parse_with_old_tree(source, &first).unwrap();
    assert_eq!(second.root_node().to_sexp(), first.root_node().to_sexp());
    assert_eq!(extract_symbols(&second, source), analyze_rust(source).unwrap());
    assert_eq!(extract_symbols(&second, source).len(), 2);
}
