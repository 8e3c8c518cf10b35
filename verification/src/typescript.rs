//! Symbols of TypeScript and JavaScript sources: functions, classes,
//! interfaces, type aliases, imports and module-level variables.

use vstd::prelude::*;
use crate::extract::{
    all_lines_ordered, all_unassigned, declaration, declare, name_symbol, named, one_or_none,
    opt_symbol_view, push_found, push_symbol,
};
use crate::parser::{
    new_parser, parse_text, parsed_syntax, parser_grammar, parser_unhindered,
    recorded_field_names,
    recorded_fields, set_typescript, snapshot, tree_grammar, tree_syntax, Grammar, ParseError,
};
use crate::symbol::{symbol_views, Symbol, SymbolKind, SymbolView};
use crate::syntax::{node_text, SyntaxNode};
use crate::text::{opt_str_view, str_eq, strip_quotes, trim_quotes};

verus! {

/// Whether a node of this kind is a function.
pub open spec fn is_function_kind(kind: Seq<char>) -> bool {
    kind == "function_declaration"@ || kind == "function"@ || kind == "arrow_function"@ || kind
        == "method_definition"@
}

/// Whether a node of this kind is a class.
pub open spec fn is_class_kind(kind: Seq<char>) -> bool {
    kind == "class_declaration"@ || kind == "class"@
}

/// Whether a node of this kind declares variables.
pub open spec fn is_variable_kind(kind: Seq<char>) -> bool {
    kind == "lexical_declaration"@ || kind == "variable_declaration"@
}

/// The symbol of a function, named by its `name` child; a function without
/// a name has none.
pub open spec fn function_symbol(
    node: SyntaxNode,
    source: Seq<char>,
    scope: Option<Seq<char>>,
) -> Option<SymbolView> {
    declaration(node, source, "name"@, SymbolKind::Function, scope)
}

/// The symbol of a class, named by its `name` child; a class without a name
/// has none.
pub open spec fn class_symbol(
    node: SyntaxNode,
    source: Seq<char>,
    scope: Option<Seq<char>>,
) -> Option<SymbolView> {
    declaration(node, source, "name"@, SymbolKind::Class, scope)
}

/// The symbol of an `interface_declaration` or a `type_alias_declaration`,
/// named by its `name` child.
pub open spec fn type_symbol(
    node: SyntaxNode,
    source: Seq<char>,
    scope: Option<Seq<char>>,
) -> Option<SymbolView> {
    declaration(node, source, "name"@, SymbolKind::Type, scope)
}

/// The text of an optional name without the quotation marks around it.
pub open spec fn unquoted(text: Option<Seq<char>>) -> Option<Seq<char>> {
    match text {
        Some(t) => Some(trim_quotes(t)),
        None => None,
    }
}

/// The symbol of an `import_statement`: its name is the text of the `source`
/// child without the quotation marks around it.
pub open spec fn import_symbol(
    node: SyntaxNode,
    source: Seq<char>,
    scope: Option<Seq<char>>,
) -> Option<SymbolView> {
    named(node, unquoted(node.field_text(source, "source"@)), SymbolKind::Import, scope)
}

/// Whether `child` is a `variable_declarator` whose `name` child is a plain
/// identifier.
pub open spec fn declares_identifier(child: SyntaxNode) -> bool {
    child.kind@ == "variable_declarator"@ && (child.field("name"@) matches Some(name)
        && name.kind@ == "identifier"@)
}

/// The symbol of a variable declaration `node`, looking at its children at or
/// after `from`: the first `variable_declarator` whose name is a plain
/// identifier names the symbol, which is on the rows of `node`.
pub open spec fn declarator_symbol(
    node: SyntaxNode,
    source: Seq<char>,
    from: int,
) -> Option<SymbolView>
    decreases node.children@.len() - from,
{
    if 0 <= from < node.children@.len() {
        let child = node.children@[from];
        if declares_identifier(child) {
            named(node, child.field_text(source, "name"@), SymbolKind::Variable, None)
        } else {
            declarator_symbol(node, source, from + 1)
        }
    } else {
        None
    }
}

/// The symbol of a `lexical_declaration` or a `variable_declaration`.
pub open spec fn variable_symbol(node: SyntaxNode, source: Seq<char>) -> Option<SymbolView> {
    declarator_symbol(node, source, 0)
}

/// The symbols of the subtree at `node`, in document order, where `scope` is
/// the name of the innermost enclosing function or class. An export statement
/// has no symbol of its own: what it wraps is found below it like any other
/// declaration.
pub open spec fn symbols_of(
    node: SyntaxNode,
    source: Seq<char>,
    scope: Option<Seq<char>>,
) -> Seq<SymbolView>
    decreases node,
{
    if is_function_kind(node.kind@) {
        match function_symbol(node, source, scope) {
            Some(symbol) => seq![symbol] + symbols_of_children(
                node.children@,
                source,
                Some(symbol.name),
                0,
            ),
            None => Seq::empty(),
        }
    } else if is_class_kind(node.kind@) {
        match class_symbol(node, source, scope) {
            Some(symbol) => seq![symbol] + symbols_of_children(
                node.children@,
                source,
                Some(symbol.name),
                0,
            ),
            None => Seq::empty(),
        }
    } else if node.kind@ == "interface_declaration"@ || node.kind@ == "type_alias_declaration"@ {
        one_or_none(type_symbol(node, source, scope))
    } else if node.kind@ == "import_statement"@ {
        one_or_none(import_symbol(node, source, scope))
    } else if is_variable_kind(node.kind@) {
        if scope is None {
            one_or_none(variable_symbol(node, source))
        } else {
            Seq::empty()
        }
    } else {
        symbols_of_children(node.children@, source, scope, 0)
    }
}

/// The symbols of the subtrees at `children[from..]`, one subtree after the
/// other.
pub open spec fn symbols_of_children(
    children: Seq<SyntaxNode>,
    source: Seq<char>,
    scope: Option<Seq<char>>,
    from: int,
) -> Seq<SymbolView>
    decreases children, children.len() - from,
{
    if 0 <= from < children.len() {
        symbols_of(children[from], source, scope) + symbols_of_children(
            children,
            source,
            scope,
            from + 1,
        )
    } else {
        Seq::empty()
    }
}

/// The symbol of a variable declaration, if it has one, is on ordered lines
/// and unassigned.
pub proof fn lemma_declarator_symbol(node: SyntaxNode, source: Seq<char>, from: int)
    ensures
        all_lines_ordered(one_or_none(declarator_symbol(node, source, from))),
        all_unassigned(one_or_none(declarator_symbol(node, source, from))),
    decreases node.children@.len() - from,
{
    if 0 <= from < node.children@.len() {
        if !declares_identifier(node.children@[from]) {
            lemma_declarator_symbol(node, source, from + 1);
        }
    }
}

/// Every symbol of a subtree has its lines in order, is unstored and belongs
/// to no file yet.
pub proof fn lemma_symbols_of(node: SyntaxNode, source: Seq<char>, scope: Option<Seq<char>>)
    ensures
        all_lines_ordered(symbols_of(node, source, scope)),
        all_unassigned(symbols_of(node, source, scope)),
    decreases node,
{
    if is_function_kind(node.kind@) {
        if let Some(symbol) = function_symbol(node, source, scope) {
            lemma_symbols_of_children(node.children@, source, Some(symbol.name), 0);
        }
    } else if is_class_kind(node.kind@) {
        if let Some(symbol) = class_symbol(node, source, scope) {
            lemma_symbols_of_children(node.children@, source, Some(symbol.name), 0);
        }
    } else if node.kind@ == "interface_declaration"@ || node.kind@ == "type_alias_declaration"@ {
    } else if node.kind@ == "import_statement"@ {
    } else if is_variable_kind(node.kind@) {
        lemma_declarator_symbol(node, source, 0);
    } else {
        lemma_symbols_of_children(node.children@, source, scope, 0);
    }
}

/// `lemma_symbols_of`, for the subtrees at `children[from..]`.
pub proof fn lemma_symbols_of_children(
    children: Seq<SyntaxNode>,
    source: Seq<char>,
    scope: Option<Seq<char>>,
    from: int,
)
    ensures
        all_lines_ordered(symbols_of_children(children, source, scope, from)),
        all_unassigned(symbols_of_children(children, source, scope, from)),
    decreases children, children.len() - from,
{
    if 0 <= from < children.len() {
        lemma_symbols_of(children[from], source, scope);
        lemma_symbols_of_children(children, source, scope, from + 1);
    }
}

/// Whether the node is a function.
pub fn is_function_node(node: &SyntaxNode) -> (r: bool)
    ensures
        r == is_function_kind(node.kind@),
{
    node.is_kind("function_declaration") || node.is_kind("function") || node.is_kind(
        "arrow_function",
    ) || node.is_kind("method_definition")
}

/// Whether the node is a class.
pub fn is_class_node(node: &SyntaxNode) -> (r: bool)
    ensures
        r == is_class_kind(node.kind@),
{
    node.is_kind("class_declaration") || node.is_kind("class")
}

/// Whether the node declares variables.
pub fn is_variable_node(node: &SyntaxNode) -> (r: bool)
    ensures
        r == is_variable_kind(node.kind@),
{
    node.is_kind("lexical_declaration") || node.is_kind("variable_declaration")
}

/// Extracts the symbol of a function.
pub fn extract_function(node: &SyntaxNode, source: &str, scope: Option<&str>) -> (r: Option<
    Symbol,
>)
    ensures
        opt_symbol_view(r) == function_symbol(*node, source@, opt_str_view(scope)),
{
    declare(node, source, "name", SymbolKind::Function, scope)
}

/// Extracts the symbol of a class.
pub fn extract_class(node: &SyntaxNode, source: &str, scope: Option<&str>) -> (r: Option<Symbol>)
    ensures
        opt_symbol_view(r) == class_symbol(*node, source@, opt_str_view(scope)),
{
    declare(node, source, "name", SymbolKind::Class, scope)
}

/// Extracts the symbol of an interface declaration.
pub fn extract_interface(node: &SyntaxNode, source: &str, scope: Option<&str>) -> (r: Option<
    Symbol,
>)
    ensures
        opt_symbol_view(r) == type_symbol(*node, source@, opt_str_view(scope)),
{
    declare(node, source, "name", SymbolKind::Type, scope)
}

/// Extracts the symbol of a type alias declaration.
pub fn extract_type_alias(node: &SyntaxNode, source: &str, scope: Option<&str>) -> (r: Option<
    Symbol,
>)
    ensures
        opt_symbol_view(r) == type_symbol(*node, source@, opt_str_view(scope)),
{
    declare(node, source, "name", SymbolKind::Type, scope)
}

/// Extracts the symbol of an import statement.
pub fn extract_import(node: &SyntaxNode, source: &str, scope: Option<&str>) -> (r: Option<Symbol>)
    ensures
        opt_symbol_view(r) == import_symbol(*node, source@, opt_str_view(scope)),
{
    let name = match node.field_text_of(source, "source") {
        Some(text) => Some(strip_quotes(text.as_str())),
        None => None,
    };
    name_symbol(node, name, SymbolKind::Import, scope)
}

/// An export statement has no symbol of its own.
pub fn extract_export(node: &SyntaxNode, source: &str, scope: Option<&str>) -> (r: Option<Symbol>)
    ensures
        r is None,
{
    None
}

/// Extracts the symbol of a variable declaration.
pub fn extract_variable(node: &SyntaxNode, source: &str) -> (r: Option<Symbol>)
    ensures
        opt_symbol_view(r) == variable_symbol(*node, source@),
{
    let mut i: usize = 0;
    while i < node.children.len()
        invariant
            i <= node.children.len(),
            variable_symbol(*node, source@) == declarator_symbol(*node, source@, i as int),
        decreases node.children.len() - i,
    {
        let child = &node.children[i];
        if child.is_kind("variable_declarator") {
            match child.child_by_field_name("name") {
                Some(name) => {
                    if str_eq(name.kind.as_str(), "identifier") {
                        let text = node_text(source, name.start_byte, name.end_byte);
                        return name_symbol(node, text, SymbolKind::Variable, None);
                    }
                },
                None => {},
            }
        }
        i += 1;
    }
    None
}

/// Appends the symbols of the subtree at `node` to `symbols`.
pub fn extract_from_node(
    node: &SyntaxNode,
    source: &str,
    symbols: &mut Vec<Symbol>,
    parent_scope: Option<&str>,
)
    ensures
        symbol_views(final(symbols)@) == symbol_views(old(symbols)@) + symbols_of(
            *node,
            source@,
            opt_str_view(parent_scope),
        ),
    decreases node, 1int,
{
    if is_function_node(node) {
        match extract_function(node, source, parent_scope) {
            Some(symbol) => {
                let name = symbol.name.clone();
                push_symbol(symbols, symbol);
                extract_from_children(node, source, symbols, Some(name.as_str()));
            },
            None => {},
        }
    } else if is_class_node(node) {
        match extract_class(node, source, parent_scope) {
            Some(symbol) => {
                let name = symbol.name.clone();
                push_symbol(symbols, symbol);
                extract_from_children(node, source, symbols, Some(name.as_str()));
            },
            None => {},
        }
    } else if node.is_kind("interface_declaration") {
        push_found(symbols, extract_interface(node, source, parent_scope));
    } else if node.is_kind("type_alias_declaration") {
        push_found(symbols, extract_type_alias(node, source, parent_scope));
    } else if node.is_kind("import_statement") {
        push_found(symbols, extract_import(node, source, parent_scope));
    } else if is_variable_node(node) {
        if parent_scope.is_none() {
            push_found(symbols, extract_variable(node, source));
        }
    } else {
        if node.is_kind("export_statement") {
            push_found(symbols, extract_export(node, source, parent_scope));
        }
        extract_from_children(node, source, symbols, parent_scope);
    }
}

/// Appends the symbols of the subtrees at the children of `node`.
pub fn extract_from_children(
    node: &SyntaxNode,
    source: &str,
    symbols: &mut Vec<Symbol>,
    scope: Option<&str>,
)
    ensures
        symbol_views(final(symbols)@) == symbol_views(old(symbols)@) + symbols_of_children(
            node.children@,
            source@,
            opt_str_view(scope),
            0,
        ),
    decreases node, 0int,
{
    let ghost before = symbol_views(symbols@);
    let ghost all = symbols_of_children(node.children@, source@, opt_str_view(scope), 0);
    let mut i: usize = 0;
    while i < node.children.len()
        invariant
            i <= node.children.len(),
            before + all == symbol_views(symbols@) + symbols_of_children(
                node.children@,
                source@,
                opt_str_view(scope),
                i as int,
            ),
        decreases node.children.len() - i,
    {
        extract_from_node(&node.children[i], source, symbols, scope);
        i += 1;
    }
}

/// The symbols of a whole tree, in document order.
pub fn extract_from_tree(root: &SyntaxNode, source: &str) -> (r: Vec<Symbol>)
    ensures
        symbol_views(r@) == symbols_of(*root, source@, None),
        all_lines_ordered(symbol_views(r@)),
        all_unassigned(symbol_views(r@)),
{
    let mut symbols: Vec<Symbol> = Vec::new();
    extract_from_node(root, source, &mut symbols, None);
    proof {
        lemma_symbols_of(*root, source@, None);
    }
    symbols
}

/// A parser for TypeScript and JavaScript sources.
pub struct TypeScriptParser {
    parser: tree_sitter::Parser,
}

impl TypeScriptParser {
    /// The parser has the TypeScript grammar and finishes every parse it begins.
    pub closed spec fn ready(self) -> bool {
        parser_grammar(self.parser) == Some(Grammar::TypeScript) && parser_unhindered(self.parser)
    }

    /// A parser with the TypeScript grammar.
    pub fn new() -> (r: Result<TypeScriptParser, ParseError>)
        ensures
            r matches Ok(parser) && parser.ready(),
    {
        let mut parser = new_parser();
        match set_typescript(&mut parser) {
            Ok(_) => Ok(TypeScriptParser { parser }),
            Err(_) => Err(ParseError::IncompatibleGrammar),
        }
    }

    /// Parses a source text, whatever it holds: there is always a tree, built
    /// under the TypeScript grammar, and it holds the syntax that the grammar gives
    /// the text.
    pub fn parse(&mut self, source: &str) -> (r: Result<tree_sitter::Tree, ParseError>)
        requires
            old(self).ready(),
        ensures
            final(self).ready(),
            r matches Ok(tree) && tree_grammar(tree) == Some(Grammar::TypeScript) && forall|
                fields: Seq<Seq<char>>,
            | #[trigger]
                tree_syntax(tree, fields) == parsed_syntax(Grammar::TypeScript, source@, None, fields),
    {
        match parse_text(&mut self.parser, source, None) {
            Some(tree) => Ok(tree),
            None => Err(ParseError::NoTree),
        }
    }

    /// Parses a source text, reusing what it can of an earlier tree of the
    /// same document, which a parser of the TypeScript grammar must have built.
    /// There is always a tree, and it holds the syntax that the grammar gives
    /// the text and the earlier tree.
    pub fn parse_with_old_tree(&mut self, source: &str, old_tree: &tree_sitter::Tree) -> (r:
        Result<tree_sitter::Tree, ParseError>)
        requires
            old(self).ready(),
            tree_grammar(*old_tree) == Some(Grammar::TypeScript),
        ensures
            final(self).ready(),
            r matches Ok(tree) && tree_grammar(tree) == Some(Grammar::TypeScript) && forall|
                fields: Seq<Seq<char>>,
            | #[trigger]
                tree_syntax(tree, fields) == parsed_syntax(
                    Grammar::TypeScript,
                    source@,
                    Some(*old_tree),
                    fields,
                ),
    {
        match parse_text(&mut self.parser, source, Some(old_tree)) {
            Some(tree) => Ok(tree),
            None => Err(ParseError::NoTree),
        }
    }
}

/// The symbols of a parsed TypeScript source, in document order.
pub fn extract_symbols(tree: &tree_sitter::Tree, source: &str) -> (r: Vec<Symbol>)
    ensures
        symbol_views(r@) == symbols_of(
            tree_syntax(*tree, recorded_field_names()),
            source@,
            None,
        ),
        all_lines_ordered(symbol_views(r@)),
        all_unassigned(symbol_views(r@)),
{
    let fields = recorded_fields();
    let root = snapshot(tree, &fields);
    extract_from_tree(&root, source)
}

/// Parses a TypeScript source and extracts its symbols. The symbols are those
/// of the syntax that the TypeScript grammar gives the source.
pub fn analyze_typescript(source: &str) -> (r: Result<Vec<Symbol>, ParseError>)
    ensures
        r matches Ok(symbols) && {
            &&& symbol_views(symbols@) == symbols_of(
                parsed_syntax(Grammar::TypeScript, source@, None, recorded_field_names()),
                source@,
                None,
            )
            &&& all_lines_ordered(symbol_views(symbols@))
            &&& all_unassigned(symbol_views(symbols@))
        },
{
    let mut parser = match TypeScriptParser::new() {
        Ok(parser) => parser,
        Err(error) => {
            return Err(error);
        },
    };
    match parser.parse(source) {
        Ok(tree) => Ok(extract_symbols(&tree, source)),
        Err(error) => Err(error),
    }
}

} // verus!
