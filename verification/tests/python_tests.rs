use analyzer_core::python::{
    analyze_python, extract_class, extract_from_tree, extract_function, extract_import,
    extract_symbols, extract_variable, PythonParser,
};
use analyzer_core::syntax::{NodeSpan, SyntaxNode};
use analyzer_core::{Symbol, SymbolKind};

fn span(kind: &str, start_byte: usize, end_byte: usize) -> Option<NodeSpan> {
    Some(NodeSpan { kind: kind.to_string(), start_byte, end_byte })
}

#[test]
fn test_parse_simple_function() {
    let mut parser = PythonParser::new().unwrap();
    let source = "def hello():\n    print('Hello')";
    let tree = parser.parse(source).unwrap();

    let root = tree.root_node();
    assert_eq!(root.kind(), "module");
    assert!(root.child_count() > 0);
}

#[test]
fn test_parse_class() {
    let mut parser = PythonParser::new().unwrap();
    let source = "class MyClass:\n    def __init__(self):\n        pass";
    let tree = parser.parse(source).unwrap();

    let root = tree.root_node();
    assert!(root.to_sexp().contains("class_definition"));
}

#[test]
fn test_parse_invalid_syntax() {
    let mut parser = PythonParser::new().unwrap();
    let source = "def hello(\n    # Unclosed parenthesis";
    let tree = parser.parse(source).unwrap();

    assert!(tree.root_node().has_error());
}

#[test]
fn python_parse_with_old_tree_gives_the_same_symbols() {
    let mut parser = PythonParser::new().unwrap();
    let source = "def hello():\n    print('Hello')";
    let first = parser.parse(source).unwrap();
    let second = parser.parse_with_old_tree(source, &first).unwrap();
    assert_eq!(second.root_node().to_sexp(), first.root_node().to_sexp());
    assert_eq!(extract_symbols(&first, source), extract_symbols(&second, source));
    assert_eq!(extract_symbols(&second, source).len(), 1);
}

#[test]
fn test_extract_function() {
    let source = r#"
def my_function():
    pass
"#;
    let mut parser = PythonParser::new().unwrap();
    let tree = parser.parse(source).unwrap();
    let symbols = extract_symbols(&tree, source);

    assert_eq!(symbols.len(), 1);
    assert_eq!(symbols[0].name, "my_function");
    assert!(matches!(symbols[0].kind, SymbolKind::Function));
}

#[test]
fn test_extract_class_with_methods() {
    let source = r#"
class MyClass:
    def __init__(self):
        pass

    def method(self):
        pass
"#;
    let mut parser = PythonParser::new().unwrap();
    let tree = parser.parse(source).unwrap();
    let symbols = extract_symbols(&tree, source);

    assert!(symbols.len() >= 3);
    assert!(symbols.iter().any(|s| s.name == "MyClass" && matches!(s.kind, SymbolKind::Class)));
    assert!(symbols.iter().any(|s| s.name == "__init__" && matches!(s.kind, SymbolKind::Function)));
    assert!(symbols.iter().any(|s| s.name == "method" && matches!(s.kind, SymbolKind::Function)));
}

#[test]
fn test_extract_imports() {
    let source = r#"
import os
from pathlib import Path
"#;
    let mut parser = PythonParser::new().unwrap();
    let tree = parser.parse(source).unwrap();
    let symbols = extract_symbols(&tree, source);

    assert!(symbols.iter().any(|s| s.name == "os" && matches!(s.kind, SymbolKind::Import)));
    assert!(symbols.iter().any(|s| s.name == "pathlib" && matches!(s.kind, SymbolKind::Import)));
}

#[test]
fn test_analyze_simple_function() {
    let source = r#"
def hello_world():
    print("Hello, world!")
"#;
    let symbols = analyze_python(source).unwrap();
    assert!(symbols.iter().any(|s| s.name == "hello_world" && matches!(s.kind, SymbolKind::Function)));
}

#[test]
fn test_analyze_class() {
    let source = r#"
class MyClass:
    def __init__(self):
        self.value = 42

    def get_value(self):
        return self.value
"#;
    let symbols = analyze_python(source).unwrap();
    assert!(symbols.iter().any(|s| s.name == "MyClass" && matches!(s.kind, SymbolKind::Class)));
    assert!(symbols.iter().any(|s| s.name == "__init__" && matches!(s.kind, SymbolKind::Function)));
    assert!(symbols.iter().any(|s| s.name == "get_value" && matches!(s.kind, SymbolKind::Function)));
}

#[test]
fn python_function_scenario_gives_exactly_one_symbol() {
    let symbols = analyze_python("def hello():\n    print('h')").unwrap();
    assert_eq!(
        symbols,
        vec![Symbol {
            id: None,
            file_id: 0,
            name: "hello".to_string(),
            kind: SymbolKind::Function,
            line_start: 0,
            line_end: 1,
            scope: None,
            metadata: None,
        }]
    );
}

#[test]
fn python_methods_have_their_class_as_scope() {
    let source = "class C:\n    def __init__(self):\n        pass\n    def m(self):\n        pass";
    let symbols = analyze_python(source).unwrap();
    let found: Vec<(String, SymbolKind, Option<String>, usize, usize)> = symbols
        .iter()
        .map(|s| (s.name.clone(), s.kind, s.scope.clone(), s.line_start, s.line_end))
        .collect();
    assert_eq!(
        found,
        vec![
            ("C".to_string(), SymbolKind::Class, None, 0, 4),
            ("__init__".to_string(), SymbolKind::Function, Some("C".to_string()), 1, 2),
            ("m".to_string(), SymbolKind::Function, Some("C".to_string()), 3, 4),
        ]
    );
}

#[test]
fn python_module_variables_are_found_and_local_ones_are_not() {
    let source = "x = 1\ndef f():\n    y = 2\n";
    let symbols = analyze_python(source).unwrap();
    let names: Vec<(&str, SymbolKind)> = symbols.iter().map(|s| (s.name.as_str(), s.kind)).collect();
    assert_eq!(names, vec![("x", SymbolKind::Variable), ("f", SymbolKind::Function)]);
}

#[test]
fn python_analysis_is_the_same_every_time() {
    let source = "import os\nclass A:\n    def b(self):\n        pass\nz = 3\n";
    assert_eq!(analyze_python(source).unwrap(), analyze_python(source).unwrap());
}

#[test]
fn python_symbols_have_ordered_lines_and_no_file() {
    let source = "import os\nclass A:\n    def b(self):\n        pass\nz = 3\n";
    for symbol in analyze_python(source).unwrap() {
        assert!(symbol.line_start <= symbol.line_end);
        assert_eq!(symbol.file_id, 0);
        assert_eq!(symbol.id, None);
    }
}

#[test]
fn python_names_with_wide_characters_are_read_whole() {
    let symbols = analyze_python("def grüße():\n    pass\n").unwrap();
    assert_eq!(symbols.len(), 1);
    assert_eq!(symbols[0].name, "grüße");
}

#[test]
fn python_tree_written_by_hand() {
    let source = "def f(): pass";
    let function = SyntaxNode::new("function_definition", 0, 0).with_field("name", span("identifier", 4, 5));
    let root = SyntaxNode::new("module", 0, 0).with_child(function);
    let symbols = extract_from_tree(&root, source);
    assert_eq!(symbols.len(), 1);
    assert_eq!(symbols[0].name, "f");
    assert_eq!(symbols[0].kind, SymbolKind::Function);
}

#[test]
fn python_function_without_a_name_is_passed_over_with_what_it_holds() {
    let source = "def f(): pass";
    let inner = SyntaxNode::new("function_definition", 0, 0).with_field("name", span("identifier", 4, 5));
    let nameless = SyntaxNode::new("function_definition", 0, 0).with_field("name", None).with_child(inner);
    let root = SyntaxNode::new("module", 0, 0).with_child(nameless);
    assert_eq!(extract_from_tree(&root, source), vec![]);
    let bare = SyntaxNode::new("function_definition", 0, 0);
    assert_eq!(extract_function(&bare, source, None), None);
    assert_eq!(extract_class(&bare, source, None), None);
}

#[test]
fn python_node_with_a_span_outside_the_source_is_passed_over() {
    let source = "def f(): pass";
    let beyond = SyntaxNode::new("function_definition", 0, 0).with_field("name", span("identifier", 4, 50));
    assert_eq!(extract_function(&beyond, source, None), None);
    let backwards = SyntaxNode::new("function_definition", 0, 0).with_field("name", span("identifier", 5, 4));
    assert_eq!(extract_function(&backwards, source, None), None);
    let inside_a_character = SyntaxNode::new("function_definition", 0, 0).with_field("name", span("identifier", 1, 2));
    assert_eq!(extract_function(&inside_a_character, "é = 1", None), None);
}

#[test]
fn python_node_with_rows_out_of_order_is_passed_over() {
    let source = "def f(): pass";
    let node = SyntaxNode::new("function_definition", 3, 2).with_field("name", span("identifier", 4, 5));
    assert_eq!(extract_function(&node, source, None), None);
}

#[test]
fn python_import_is_named_by_the_field_of_its_kind() {
    let source = "import os";
    let plain = SyntaxNode::new("import_statement", 0, 0)
        .with_field("name", span("dotted_name", 7, 9))
        .with_field("module_name", span("dotted_name", 0, 6));
    let symbol = extract_import(&plain, source, Some("f")).unwrap();
    assert_eq!(symbol.name, "os");
    assert_eq!(symbol.kind, SymbolKind::Import);
    assert_eq!(symbol.scope, Some("f".to_string()));
    let from = SyntaxNode::new("import_from_statement", 0, 0)
        .with_field("name", span("dotted_name", 7, 9))
        .with_field("module_name", span("dotted_name", 0, 6));
    assert_eq!(extract_import(&from, source, None).unwrap().name, "import");
}

#[test]
fn python_assignment_to_something_else_than_a_name_is_no_variable() {
    let source = "a.b = 1";
    let attribute = SyntaxNode::new("assignment", 0, 0).with_field("left", span("attribute", 0, 3));
    assert_eq!(extract_variable(&attribute, source), None);
    let plain = SyntaxNode::new("assignment", 0, 0).with_field("left", span("identifier", 0, 1));
    let symbol = extract_variable(&plain, source).unwrap();
    assert_eq!(symbol.name, "a");
    assert_eq!(symbol.kind, SymbolKind::Variable);
    assert_eq!(symbol.scope, None);
}
