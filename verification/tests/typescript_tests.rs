use analyzer_core::syntax::{NodeSpan, SyntaxNode};
use analyzer_core::typescript::{
    analyze_typescript, extract_export, extract_from_tree, extract_import, extract_symbols,
    extract_variable, TypeScriptParser,
};
use analyzer_core::SymbolKind;

fn span(kind: &str, start_byte: usize, end_byte: usize) -> Option<NodeSpan> {
    Some(NodeSpan { kind: kind.to_string(), start_byte, end_byte })
}

#[test]
fn parser_test_parse_class() {
    let mut parser = TypeScriptParser::new().unwrap();
    let source = "class MyClass {\n    constructor() {}\n}";
    let tree = parser.parse(source).unwrap();

    let root = tree.root_node();
    assert!(root.to_sexp().contains("class_declaration"));
}

#[test]
fn typescript_parse_simple_function() {
    let mut parser = TypeScriptParser::new().unwrap();
    let source = "function hello(): void {\n    console.log('Hello');\n}";
    let tree = parser.parse(source).unwrap();

    let root = tree.root_node();
    assert_eq!(root.kind(), "program");
    assert!(root.child_count() > 0);
}

#[test]
fn typescript_parse_invalid_syntax() {
    let mut parser = TypeScriptParser::new().unwrap();
    let source = "function hello(\n    // Unclosed parenthesis";
    let tree = parser.parse(source).unwrap();

    assert!(tree.root_node().has_error());
}

#[test]
fn typescript_extract_function() {
    let source = r#"
function myFunction() {
    console.log("test");
}
"#;
    let mut parser = TypeScriptParser::new().unwrap();
    let tree = parser.parse(source).unwrap();
    let symbols = extract_symbols(&tree, source);

    assert_eq!(symbols.len(), 1);
    assert_eq!(symbols[0].name, "myFunction");
    assert!(matches!(symbols[0].kind, SymbolKind::Function));
}

#[test]
fn symbol_extract_test_extract_class_with_methods() {
    let source = r#"
class MyClass {
    constructor() {
        this.value = 42;
    }

    getValue() {
        return this.value;
    }
}
"#;
    let mut parser = TypeScriptParser::new().unwrap();
    let tree = parser.parse(source).unwrap();
    let symbols = extract_symbols(&tree, source);

    assert!(symbols.iter().any(|s| s.name == "MyClass" && matches!(s.kind, SymbolKind::Class)));
    assert!(symbols.iter().any(|s| s.name == "getValue" && matches!(s.kind, SymbolKind::Function)));
}

#[test]
fn test_extract_interface() {
    let source = r#"
interface User {
    name: string;
    age: number;
}
"#;
    let mut parser = TypeScriptParser::new().unwrap();
    let tree = parser.parse(source).unwrap();
    let symbols = extract_symbols(&tree, source);

    assert!(symbols.iter().any(|s| s.name == "User" && matches!(s.kind, SymbolKind::Type)));
}

#[test]
fn test_extract_type_alias() {
    let source = r#"
type UserId = string | number;
"#;
    let mut parser = TypeScriptParser::new().unwrap();
    let tree = parser.parse(source).unwrap();
    let symbols = extract_symbols(&tree, source);

    assert!(symbols.iter().any(|s| s.name == "UserId" && matches!(s.kind, SymbolKind::Type)));
}

#[test]
fn symbol_extract_test_extract_imports() {
    let source = r#"
import { useState } from 'react';
import axios from 'axios';
"#;
    let mut parser = TypeScriptParser::new().unwrap();
    let tree = parser.parse(source).unwrap();
    let symbols = extract_symbols(&tree, source);

    assert!(symbols.iter().any(|s| s.name == "react" && matches!(s.kind, SymbolKind::Import)));
    assert!(symbols.iter().any(|s| s.name == "axios" && matches!(s.kind, SymbolKind::Import)));
}

#[test]
fn lib_test_analyze_simple_function() {
    let source = r#"
function helloWorld() {
    console.log("Hello, world!");
}
"#;
    let symbols = analyze_typescript(source).unwrap();
    assert!(symbols.iter().any(|s| s.name == "helloWorld" && matches!(s.kind, SymbolKind::Function)));
}

#[test]
fn lib_test_analyze_class() {
    let source = r#"
class MyClass {
    private value: number;

    constructor() {
        this.value = 42;
    }

    getValue(): number {
        return this.value;
    }
}
"#;
    let symbols = analyze_typescript(source).unwrap();
    assert!(symbols.iter().any(|s| s.name == "MyClass" && matches!(s.kind, SymbolKind::Class)));
    assert!(symbols.iter().any(|s| s.name == "getValue" && matches!(s.kind, SymbolKind::Function)));
}

#[test]
fn test_analyze_interface() {
    let source = r#"
interface User {
    name: string;
    age: number;
}
"#;
    let symbols = analyze_typescript(source).unwrap();
    assert!(symbols.iter().any(|s| s.name == "User" && matches!(s.kind, SymbolKind::Type)));
}

#[test]
fn typescript_interface_and_import_scenario() {
    let source = "import { useState } from 'react';\ninterface U { name: string; }";
    let symbols = analyze_typescript(source).unwrap();
    let found: Vec<(&str, SymbolKind, usize, usize)> =
        symbols.iter().map(|s| (s.name.as_str(), s.kind, s.line_start, s.line_end)).collect();
    assert_eq!(found, vec![("react", SymbolKind::Import, 0, 0), ("U", SymbolKind::Type, 1, 1)]);
}

#[test]
fn typescript_methods_have_their_class_as_scope() {
    let source = "class A {\n  m() { return 1; }\n}\n";
    let symbols = analyze_typescript(source).unwrap();
    let found: Vec<(&str, SymbolKind, Option<&str>)> =
        symbols.iter().map(|s| (s.name.as_str(), s.kind, s.scope.as_deref())).collect();
    assert_eq!(found, vec![("A", SymbolKind::Class, None), ("m", SymbolKind::Function, Some("A"))]);
}

#[test]
fn typescript_exported_declarations_are_found_below_the_export() {
    let source = "export function f() {}\nexport const limit = 3;\n";
    let symbols = analyze_typescript(source).unwrap();
    let found: Vec<(&str, SymbolKind)> = symbols.iter().map(|s| (s.name.as_str(), s.kind)).collect();
    assert_eq!(found, vec![("f", SymbolKind::Function), ("limit", SymbolKind::Variable)]);
    let export = SyntaxNode::new("export_statement", 0, 0);
    assert_eq!(extract_export(&export, source, None), None);
}

#[test]
fn typescript_module_variables_are_found_and_local_ones_are_not() {
    let source = "const a = 1;\nlet [b, c] = pair, d = 2;\nfunction f() { var e = 3; }\n";
    let symbols = analyze_typescript(source).unwrap();
    let found: Vec<(&str, SymbolKind, usize)> =
        symbols.iter().map(|s| (s.name.as_str(), s.kind, s.line_start)).collect();
    assert_eq!(
        found,
        vec![
            ("a", SymbolKind::Variable, 0),
            ("d", SymbolKind::Variable, 1),
            ("f", SymbolKind::Function, 2),
        ]
    );
}

#[test]
fn typescript_functions_without_a_name_are_passed_over() {
    let source = "run(() => { function hidden() {} });\n";
    let symbols = analyze_typescript(source).unwrap();
    assert_eq!(symbols, vec![]);
}

#[test]
fn typescript_import_name_loses_the_quotation_marks_around_it() {
    let source = "import x from \"'a'b'\";";
    let node = SyntaxNode::new("import_statement", 0, 0).with_field("source", span("string", 14, 21));
    let symbol = extract_import(&node, source, None).unwrap();
    assert_eq!(symbol.name, "a'b");
    let only_marks = SyntaxNode::new("import_statement", 0, 0).with_field("source", span("string", 14, 16));
    assert_eq!(extract_import(&only_marks, source, None).unwrap().name, "");
    let no_source = SyntaxNode::new("import_statement", 0, 0);
    assert_eq!(extract_import(&no_source, source, None), None);
}

#[test]
fn typescript_variable_is_named_by_the_first_declarator_with_a_plain_name() {
    let source = "let [b] = p, d = 2;";
    let pattern = SyntaxNode::new("variable_declarator", 0, 0).with_field("name", span("array_pattern", 4, 7));
    let plain = SyntaxNode::new("variable_declarator", 0, 0).with_field("name", span("identifier", 13, 14));
    let later = SyntaxNode::new("variable_declarator", 0, 0).with_field("name", span("identifier", 0, 3));
    let declaration = SyntaxNode::new("lexical_declaration", 2, 5)
        .with_child(SyntaxNode::new("let", 0, 0))
        .with_child(pattern)
        .with_child(plain)
        .with_child(later);
    let symbol = extract_variable(&declaration, source).unwrap();
    assert_eq!(symbol.name, "d");
    assert_eq!(symbol.kind, SymbolKind::Variable);
    assert_eq!((symbol.line_start, symbol.line_end), (2, 5));
    let root = SyntaxNode::new("program", 0, 5).with_child(declaration);
    assert_eq!(extract_from_tree(&root, source).len(), 1);
    let empty = SyntaxNode::new("lexical_declaration", 0, 0);
    assert_eq!(extract_variable(&empty, source), None);
}

#[test]
fn typescript_analysis_is_the_same_every_time() {
    let source = "import a from 'a';\nclass B { c() {} }\ntype D = string;\n";
    assert_eq!(analyze_typescript(source).unwrap(), analyze_typescript(source).unwrap());
    for symbol in analyze_typescript(source).unwrap() {
        assert!(symbol.line_start <= symbol.line_end);
    }
}

#[test]
fn typescript_parse_with_old_tree_gives_the_symbols_of_the_text() {
    let mut parser = TypeScriptParser::new().unwrap();
    let source = "function a() {}\nclass B { c() {} }\n";
    let first = parser.parse(source).unwrap();
    let second = parser.parse_with_old_tree(source, &first).unwrap();
    assert_eq!(second.root_node().to_sexp(), first.root_node().to_sexp());
    assert_eq!(extract_symbols(&second, source), analyze_typescript(source).unwrap());
    assert_eq!(extract_symbols(&second, source).len(), 3);
}
