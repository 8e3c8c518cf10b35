//! Symbols of Python sources: functions, classes, imports and module-level
//! variables.

use vstd::prelude::*;
use crate::extract::{
    all_lines_ordered, all_unassigned, declaration, declare, name_symbol, named, one_or_none,
    opt_symbol_view, push_found, push_symbol,
};
use crate::parser::{
    new_parser, parse_text, parsed_syntax, parser_grammar, parser_unhindered,
    recorded_field_names,
    recorded_fields, set_python, snapshot, tree_grammar, tree_syntax, Grammar, ParseError,
};
use crate::symbol::{symbol_views, Symbol, SymbolKind, SymbolView};
use crate::syntax::{node_text, SyntaxNode};
use crate::text::{opt_str_view, str_eq};

verus! {

/// The symbol of a `function_definition`, named by its `name` child.
pub open spec fn function_symbol(
    node: SyntaxNode,
    source: Seq<char>,
    scope: Option<Seq<char>>,
) -> Option<SymbolView> {
    declaration(node, source, "name"@, SymbolKind::Function, scope)
}

/// The symbol of a `class_definition`, named by its `name` child.
pub open spec fn class_symbol(
    node: SyntaxNode,
    source: Seq<char>,
    scope: Option<Seq<char>>,
) -> Option<SymbolView> {
    declaration(node, source, "name"@, SymbolKind::Class, scope)
}

/// The symbol of an import: an `import_statement` is named by its `name`
/// child, any other import by its `module_name` child.
pub open spec fn import_symbol(
    node: SyntaxNode,
    source: Seq<char>,
    scope: Option<Seq<char>>,
) -> Option<SymbolView> {
    if node.kind@ == "import_statement"@ {
        declaration(node, source, "name"@, SymbolKind::Import, scope)
    } else {
        declaration(node, source, "module_name"@, SymbolKind::Import, scope)
    }
}

/// The symbol of an `assignment` whose left side is a plain identifier.
pub open spec fn variable_symbol(node: SyntaxNode, source: Seq<char>) -> Option<SymbolView> {
    match node.field("left"@) {
        Some(left) => if left.kind@ == "identifier"@ {
            named(node, left.text(source), SymbolKind::Variable, None)
        } else {
            None
        },
        None => None,
    }
}

/// The symbols of the subtree at `node`, in document order, where `scope` is
/// the name of the innermost enclosing function or class.
pub open spec fn symbols_of(
    node: SyntaxNode,
    source: Seq<char>,
    scope: Option<Seq<char>>,
) -> Seq<SymbolView>
    decreases node,
{
    if node.kind@ == "function_definition"@ {
        match function_symbol(node, source, scope) {
            Some(symbol) => seq![symbol] + symbols_of_children(
                node.children@,
                source,
                Some(symbol.name),
                0,
            ),
            None => Seq::empty(),
        }
    } else if node.kind@ == "class_definition"@ {
        match class_symbol(node, source, scope) {
            Some(symbol) => seq![symbol] + symbols_of_children(
                node.children@,
                source,
                Some(symbol.name),
                0,
            ),
            None => Seq::empty(),
        }
    } else if node.kind@ == "import_statement"@ || node.kind@ == "import_from_statement"@ {
        one_or_none(import_symbol(node, source, scope))
    } else if node.kind@ == "assignment"@ {
        if scope is None {
            one_or_none(variable_symbol(node, source))
        } else {
            Seq::empty()
        }
    } else {
        symbols_of_children(node.children@, source, scope, 0)
    }
}

/// The symbols of the subtrees at `children[from..]`, one subtree after the
/// other.
pub open spec fn symbols_of_children(
    children: Seq<SyntaxNode>,
    source: Seq<char>,
    scope: Option<Seq<char>>,
    from: int,
) -> Seq<SymbolView>
    decreases children, children.len() - from,
{
    if 0 <= from < children.len() {
        symbols_of(children[from], source, scope) + symbols_of_children(
            children,
            source,
            scope,
            from + 1,
        )
    } else {
        Seq::empty()
    }
}

/// Every symbol of a subtree has its lines in order, is unstored and belongs
/// to no file yet.
pub proof fn lemma_symbols_of(node: SyntaxNode, source: Seq<char>, scope: Option<Seq<char>>)
    ensures
        all_lines_ordered(symbols_of(node, source, scope)),
        all_unassigned(symbols_of(node, source, scope)),
    decreases node,
{
    if node.kind@ == "function_definition"@ {
        if let Some(symbol) = function_symbol(node, source, scope) {
            lemma_symbols_of_children(node.children@, source, Some(symbol.name), 0);
        }
    } else if node.kind@ == "class_definition"@ {
        if let Some(symbol) = class_symbol(node, source, scope) {
            lemma_symbols_of_children(node.children@, source, Some(symbol.name), 0);
        }
    } else if node.kind@ == "import_statement"@ || node.kind@ == "import_from_statement"@ {
    } else if node.kind@ == "assignment"@ {
    } else {
        lemma_symbols_of_children(node.children@, source, scope, 0);
    }
}

/// `lemma_symbols_of`, for the subtrees at `children[from..]`.
pub proof fn lemma_symbols_of_children(
    children: Seq<SyntaxNode>,
    source: Seq<char>,
    scope: Option<Seq<char>>,
    from: int,
)
    ensures
        all_lines_ordered(symbols_of_children(children, source, scope, from)),
        all_unassigned(symbols_of_children(children, source, scope, from)),
    decreases children, children.len() - from,
{
    if 0 <= from < children.len() {
        lemma_symbols_of(children[from], source, scope);
        lemma_symbols_of_children(children, source, scope, from + 1);
    }
}

/// Extracts the symbol of a function definition.
pub fn extract_function(node: &SyntaxNode, source: &str, scope: Option<&str>) -> (r: Option<
    Symbol,
>)
    ensures
        opt_symbol_view(r) == function_symbol(*node, source@, opt_str_view(scope)),
{
    declare(node, source, "name", SymbolKind::Function, scope)
}

/// Extracts the symbol of a class definition.
pub fn extract_class(node: &SyntaxNode, source: &str, scope: Option<&str>) -> (r: Option<Symbol>)
    ensures
        opt_symbol_view(r) == class_symbol(*node, source@, opt_str_view(scope)),
{
    declare(node, source, "name", SymbolKind::Class, scope)
}

/// Extracts the symbol of an import statement.
pub fn extract_import(node: &SyntaxNode, source: &str, scope: Option<&str>) -> (r: Option<Symbol>)
    ensures
        opt_symbol_view(r) == import_symbol(*node, source@, opt_str_view(scope)),
{
    if node.is_kind("import_statement") {
        declare(node, source, "name", SymbolKind::Import, scope)
    } else {
        declare(node, source, "module_name", SymbolKind::Import, scope)
    }
}

/// Extracts the symbol of a variable assignment.
pub fn extract_variable(node: &SyntaxNode, source: &str) -> (r: Option<Symbol>)
    ensures
        opt_symbol_view(r) == variable_symbol(*node, source@),
{
    match node.child_by_field_name("left") {
        Some(left) => {
            if str_eq(left.kind.as_str(), "identifier") {
                let name = node_text(source, left.start_byte, left.end_byte);
                name_symbol(node, name, SymbolKind::Variable, None)
            } else {
                None
            }
        },
        None => None,
    }
}

/// Appends the symbols of the subtree at `node` to `symbols`.
pub fn extract_from_node(
    node: &SyntaxNode,
    source: &str,
    symbols: &mut Vec<Symbol>,
    parent_scope: Option<&str>,
)
    ensures
        symbol_views(final(symbols)@) == symbol_views(old(symbols)@) + symbols_of(
            *node,
            source@,
            opt_str_view(parent_scope),
        ),
    decreases node, 1int,
{
    if node.is_kind("function_definition") {
        match extract_function(node, source, parent_scope) {
            Some(symbol) => {
                let name = symbol.name.clone();
                push_symbol(symbols, symbol);
                extract_from_children(node, source, symbols, Some(name.as_str()));
            },
            None => {},
        }
    } else if node.is_kind("class_definition") {
        match extract_class(node, source, parent_scope) {
            Some(symbol) => {
                let name = symbol.name.clone();
                push_symbol(symbols, symbol);
                extract_from_children(node, source, symbols, Some(name.as_str()));
            },
            None => {},
        }
    } else if node.is_kind("import_statement") || node.is_kind("import_from_statement") {
        push_found(symbols, extract_import(node, source, parent_scope));
    } else if node.is_kind("assignment") {
        if parent_scope.is_none() {
            push_found(symbols, extract_variable(node, source));
        }
    } else {
        extract_from_children(node, source, symbols, parent_scope);
    }
}

/// Appends the symbols of the subtrees at the children of `node`.
pub fn extract_from_children(
    node: &SyntaxNode,
    source: &str,
    symbols: &mut Vec<Symbol>,
    scope: Option<&str>,
)
    ensures
        symbol_views(final(symbols)@) == symbol_views(old(symbols)@) + symbols_of_children(
            node.children@,
            source@,
            opt_str_view(scope),
            0,
        ),
    decreases node, 0int,
{
    let ghost before = symbol_views(symbols@);
    let ghost all = symbols_of_children(node.children@, source@, opt_str_view(scope), 0);
    let mut i: usize = 0;
    while i < node.children.len()
        invariant
            i <= node.children.len(),
            before + all == symbol_views(symbols@) + symbols_of_children(
                node.children@,
                source@,
                opt_str_view(scope),
                i as int,
            ),
        decreases node.children.len() - i,
    {
        extract_from_node(&node.children[i], source, symbols, scope);
        i += 1;
    }
}

/// The symbols of a whole tree, in document order.
pub fn extract_from_tree(root: &SyntaxNode, source: &str) -> (r: Vec<Symbol>)
    ensures
        symbol_views(r@) == symbols_of(*root, source@, None),
        all_lines_ordered(symbol_views(r@)),
        all_unassigned(symbol_views(r@)),
{
    let mut symbols: Vec<Symbol> = Vec::new();
    extract_from_node(root, source, &mut symbols, None);
    proof {
        lemma_symbols_of(*root, source@, None);
    }
    symbols
}

/// A parser for Python sources.
pub struct PythonParser {
    parser: tree_sitter::Parser,
}

impl PythonParser {
    /// The parser has the Python grammar and finishes every parse it begins.
    pub closed spec fn ready(self) -> bool {
        parser_grammar(self.parser) == Some(Grammar::Python) && parser_unhindered(self.parser)
    }

    /// A parser with the Python grammar.
    pub fn new() -> (r: Result<PythonParser, ParseError>)
        ensures
            r matches Ok(parser) && parser.ready(),
    {
        let mut parser = new_parser();
        match set_python(&mut parser) {
            Ok(_) => Ok(PythonParser { parser }),
            Err(_) => Err(ParseError::IncompatibleGrammar),
        }
    }

    /// Parses a source text, whatever it holds: there is always a tree, built
    /// under the Python grammar, and it holds the syntax that the grammar gives
    /// the text.
    pub fn parse(&mut self, source: &str) -> (r: Result<tree_sitter::Tree, ParseError>)
        requires
            old(self).ready(),
        ensures
            final(self).ready(),
            r matches Ok(tree) && tree_grammar(tree) == Some(Grammar::Python) && forall|
                fields: Seq<Seq<char>>,
            | #[trigger]
                tree_syntax(tree, fields) == parsed_syntax(Grammar::Python, source@, None, fields),
    {
        match parse_text(&mut self.parser, source, None) {
            Some(tree) => Ok(tree),
            None => Err(ParseError::NoTree),
        }
    }

    /// Parses a source text, reusing what it can of an earlier tree of the
    /// same document, which a parser of the Python grammar must have built.
    /// There is always a tree, and it holds the syntax that the grammar gives
    /// the text and the earlier tree.
    pub fn parse_with_old_tree(&mut self, source: &str, old_tree: &tree_sitter::Tree) -> (r:
        Result<tree_sitter::Tree, ParseError>)
        requires
            old(self).ready(),
            tree_grammar(*old_tree) == Some(Grammar::Python),
        ensures
            final(self).ready(),
            r matches Ok(tree) && tree_grammar(tree) == Some(Grammar::Python) && forall|
                fields: Seq<Seq<char>>,
            | #[trigger]
                tree_syntax(tree, fields) == parsed_syntax(
                    Grammar::Python,
                    source@,
                    Some(*old_tree),
                    fields,
                ),
    {
        match parse_text(&mut self.parser, source, Some(old_tree)) {
            Some(tree) => Ok(tree),
            None => Err(ParseError::NoTree),
        }
    }
}

/// The symbols of a parsed Python source, in document order.
pub fn extract_symbols(tree: &tree_sitter::Tree, source: &str) -> (r: Vec<Symbol>)
    ensures
        symbol_views(r@) == symbols_of(
            tree_syntax(*tree, recorded_field_names()),
            source@,
            None,
        ),
        all_lines_ordered(symbol_views(r@)),
        all_unassigned(symbol_views(r@)),
{
    let fields = recorded_fields();
    let root = snapshot(tree, &fields);
    extract_from_tree(&root, source)
}

/// Parses a Python source and extracts its symbols. The symbols are those of
/// the syntax that the Python grammar gives the source.
pub fn analyze_python(source: &str) -> (r: Result<Vec<Symbol>, ParseError>)
    ensures
        r matches Ok(symbols) && {
            &&& symbol_views(symbols@) == symbols_of(
                parsed_syntax(Grammar::Python, source@, None, recorded_field_names()),
                source@,
                None,
            )
            &&& all_lines_ordered(symbol_views(symbols@))
            &&& all_unassigned(symbol_views(symbols@))
        },
{
    let mut parser = match PythonParser::new() {
        Ok(parser) => parser,
        Err(error) => {
            return Err(error);
        },
    };
    match parser.parse(source) {
        Ok(tree) => Ok(extract_symbols(&tree, source)),
        Err(error) => Err(error),
    }
}

} // verus!
