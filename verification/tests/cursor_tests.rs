use analyzer_core::python::analyze_python;
use analyzer_core::rust::analyze_rust;
use analyzer_core::typescript::analyze_typescript;
use analyzer_core::{Symbol, SymbolKind};
use tree_sitter::{Node, Parser, TreeCursor};

/// What a walk with a cursor does at a node.
enum Step {
    /// Emit the symbol and go through the children with its name as scope.
    Open(Symbol),
    /// Emit the symbol, if any, and leave the children alone.
    Leaf(Option<Symbol>),
    /// Go through the children with this scope.
    Enter(Option<String>),
    /// Leave the subtree alone.
    Pass,
}

fn text(node: Node, source: &str) -> String {
    source[node.byte_range()].to_string()
}

fn symbol(node: Node, name: String, kind: SymbolKind, scope: Option<&str>) -> Symbol {
    Symbol {
        id: None,
        file_id: 0,
        name,
        kind,
        line_start: node.start_position().row,
        line_end: node.end_position().row,
        scope: scope.map(|s| s.to_string()),
        metadata: None,
    }
}

fn named(node: Node, source: &str, field: &str, kind: SymbolKind, scope: Option<&str>) -> Option<Symbol> {
    node.child_by_field_name(field).map(|n| symbol(node, text(n, source), kind, scope))
}

fn open(found: Option<Symbol>) -> Step {
    match found {
        Some(symbol) => Step::Open(symbol),
        None => Step::Pass,
    }
}

fn python(node: Node, source: &str, scope: Option<&str>) -> Step {
    match node.kind() {
        "function_definition" => open(named(node, source, "name", SymbolKind::Function, scope)),
        "class_definition" => open(named(node, source, "name", SymbolKind::Class, scope)),
        "import_statement" => Step::Leaf(named(node, source, "name", SymbolKind::Import, scope)),
        "import_from_statement" => {
            Step::Leaf(named(node, source, "module_name", SymbolKind::Import, scope))
        }
        "assignment" if scope.is_none() => Step::Leaf(
            node.child_by_field_name("left")
                .filter(|left| left.kind() == "identifier")
                .map(|left| symbol(node, text(left, source), SymbolKind::Variable, None)),
        ),
        "assignment" => Step::Pass,
        _ => Step::Enter(scope.map(|s| s.to_string())),
    }
}

fn typescript(node: Node, source: &str, scope: Option<&str>) -> Step {
    match node.kind() {
        "function_declaration" | "function" | "arrow_function" | "method_definition" => {
            open(named(node, source, "name", SymbolKind::Function, scope))
        }
        "class_declaration" | "class" => open(named(node, source, "name", SymbolKind::Class, scope)),
        "interface_declaration" | "type_alias_declaration" => {
            Step::Leaf(named(node, source, "name", SymbolKind::Type, scope))
        }
        "import_statement" => Step::Leaf(node.child_by_field_name("source").map(|n| {
            let name = text(n, source).trim_matches(|c| c == '"' || c == '\'').to_string();
            symbol(node, name, SymbolKind::Import, scope)
        })),
        "lexical_declaration" | "variable_declaration" if scope.is_none() => {
            let mut cursor = node.walk();
            let found = node
                .children(&mut cursor)
                .filter(|child| child.kind() == "variable_declarator")
                .filter_map(|child| child.child_by_field_name("name"))
                .find(|name| name.kind() == "identifier")
                .map(|name| symbol(node, text(name, source), SymbolKind::Variable, None));
            Step::Leaf(found)
        }
        "lexical_declaration" | "variable_declaration" => Step::Pass,
        _ => Step::Enter(scope.map(|s| s.to_string())),
    }
}

fn rust(node: Node, source: &str, scope: Option<&str>) -> Step {
    match node.kind() {
        "function_item" => open(named(node, source, "name", SymbolKind::Function, scope)),
        "struct_item" => Step::Leaf(named(node, source, "name", SymbolKind::Class, scope)),
        "enum_item" | "trait_item" | "type_item" => {
            Step::Leaf(named(node, source, "name", SymbolKind::Type, scope))
        }
        "impl_item" => match node.child_by_field_name("type") {
            Some(implemented) => Step::Enter(Some(text(implemented, source))),
            None => Step::Pass,
        },
        "use_declaration" => Step::Leaf(named(node, source, "argument", SymbolKind::Import, scope)),
        "const_item" | "static_item" if scope.is_none() => {
            Step::Leaf(named(node, source, "name", SymbolKind::Variable, None))
        }
        "const_item" | "static_item" => Step::Pass,
        _ => Step::Enter(scope.map(|s| s.to_string())),
    }
}

fn walk(
    cursor: &mut TreeCursor,
    source: &str,
    rule: fn(Node, &str, Option<&str>) -> Step,
    scope: Option<String>,
    symbols: &mut Vec<Symbol>,
) {
    let inner = match rule(cursor.node(), source, scope.as_deref()) {
        Step::Open(symbol) => {
            let name = symbol.name.clone();
            symbols.push(symbol);
            Some(name)
        }
        Step::Leaf(found) => {
            symbols.extend(found);
            return;
        }
        Step::Enter(inner) => inner,
        Step::Pass => return,
    };
    if cursor.goto_first_child() {
        loop {
            walk(cursor, source, rule, inner.clone(), symbols);
            if !cursor.goto_next_sibling() {
                break;
            }
        }
        cursor.goto_parent();
    }
}

fn with_cursor(
    language: tree_sitter::Language,
    rule: fn(Node, &str, Option<&str>) -> Step,
    source: &str,
) -> Vec<Symbol> {
    let mut parser = Parser::new();
    parser.set_language(&language).unwrap();
    let tree = parser.parse(source, None).unwrap();
    let mut symbols = Vec::new();
    walk(&mut tree.walk(), source, rule, None, &mut symbols);
    symbols
}

const PYTHON_SOURCES: [&str; 8] = [
    "",
    "def hello():\n    print('h')",
    "import os\nimport a.b as c\nfrom pathlib import Path\nfrom . import x\nfrom ..pkg import y\n",
    "class A(Base):\n    x = 1\n    def m(self):\n        def inner():\n            pass\n        return inner\n    class B:\n        pass\n",
    "@decorator\nasync def f(a, *b, **c):\n    await g()\n\nx: int = 3\ny = z = 4\na, b = 1, 2\nobj.attr = 5\n",
    "if True:\n    w = 1\nelse:\n    def alt():\n        pass\nlambda q: q\n",
    "def broken(\n    # Unclosed parenthesis",
    "def grüße():\n    naïve = 'é'\n\nπ = 3\n",
];

const TYPESCRIPT_SOURCES: [&str; 8] = [
    "",
    "import { useState } from 'react';\nimport axios from \"axios\";\nimport 'side-effect';\n",
    "function a() { function b() {} }\nconst c = () => 1;\nlet d = function () {};\nvar e = 2, f = 3;\n",
    "class A extends B {\n  private v: number;\n  constructor() { super(); }\n  m(): void {}\n  static s() {}\n  get g() { return 1; }\n}\n",
    "interface U { name: string; }\ntype Id = string | number;\nenum E { A, B }\nnamespace N { export const inner = 1; }\n",
    "export default class D {}\nexport function f() {}\nexport const k = 1;\nexport { k as other };\n",
    "const { a, b } = obj;\nconst [c] = list, d = 4;\nrun(() => { function hidden() {} });\n",
    "function broken(\n    // Unclosed parenthesis",
];

const RUST_SOURCES: [&str; 8] = [
    "",
    "struct S { v: i32 }\nimpl S { fn new() -> Self { S{v:0} } }",
    "use std::collections::HashMap;\nuse a::{b, c as d};\nuse e::*;\npub(crate) use f::g;\n",
    "const A: u8 = 1;\nstatic mut B: u8 = 2;\nfn f() { const C: u8 = 3; fn inner() {} struct Local; }\n",
    "trait T { fn required(&self); fn provided(&self) {} }\nimpl T for S { fn required(&self) {} }\nimpl<X: Clone> Generic<X> { fn g(&self) {} }\n",
    "enum E { A, B(i32) }\ntype Alias = Vec<u8>;\nmod m { pub fn inside() {} pub struct Inner; const K: u8 = 0; }\n",
    "macro_rules! mac { () => {}; }\nmac!();\n#[derive(Debug)]\npub struct Après<'a> { r: &'a str }\nunion U { a: u8 }\n",
    "fn broken(\n    // Unclosed parenthesis",
];

#[test]
fn python_symbols_are_those_of_a_walk_with_a_cursor() {
    for source in PYTHON_SOURCES {
        let expected = with_cursor(tree_sitter_python::LANGUAGE.into(), python, source);
        assert_eq!(analyze_python(source).unwrap(), expected, "{:?}", source);
    }
}

#[test]
fn typescript_symbols_are_those_of_a_walk_with_a_cursor() {
    for source in TYPESCRIPT_SOURCES {
        let expected =
            with_cursor(tree_sitter_typescript::LANGUAGE_TYPESCRIPT.into(), typescript, source);
        assert_eq!(analyze_typescript(source).unwrap(), expected, "{:?}", source);
    }
}

#[test]
fn rust_symbols_are_those_of_a_walk_with_a_cursor() {
    for source in RUST_SOURCES {
        let expected = with_cursor(tree_sitter_rust::LANGUAGE.into(), rust, source);
        assert_eq!(analyze_rust(source).unwrap(), expected, "{:?}", source);
    }
}

#[test]
fn sources_with_symbols_are_among_those_compared() {
    let counts: Vec<usize> = PYTHON_SOURCES.iter().map(|s| analyze_python(s).unwrap().len()).collect();
    assert_eq!(counts, vec![0, 1, 5, 4, 3, 2, 0, 2]);
    let counts: Vec<usize> =
        TYPESCRIPT_SOURCES.iter().map(|s| analyze_typescript(s).unwrap().len()).collect();
    assert!(counts.iter().sum::<usize>() >= 20, "{:?}", counts);
    let counts: Vec<usize> = RUST_SOURCES.iter().map(|s| analyze_rust(s).unwrap().len()).collect();
    assert!(counts.iter().sum::<usize>() >= 20, "{:?}", counts);
}
