//! Symbols of Rust sources: functions, structs, enums, traits, type aliases,
//! imports and module-level constants.

use vstd::prelude::*;
use crate::extract::{
    all_lines_ordered, all_unassigned, declaration, declare, one_or_none, opt_symbol_view,
    push_found, push_symbol,
};
use crate::parser::{
    new_parser, parse_text, parsed_syntax, parser_grammar, parser_unhindered,
    recorded_field_names,
    recorded_fields, set_rust, snapshot, tree_grammar, tree_syntax, Grammar, ParseError,
};
use crate::symbol::{symbol_views, Symbol, SymbolKind, SymbolView};
use crate::syntax::SyntaxNode;
use crate::text::{opt_str_view, opt_view};

verus! {

/// Whether a node of this kind declares a type that is not a struct.
pub open spec fn is_type_kind(kind: Seq<char>) -> bool {
    kind == "enum_item"@ || kind == "trait_item"@ || kind == "type_item"@
}

/// Whether a node of this kind declares a constant or a static.
pub open spec fn is_constant_kind(kind: Seq<char>) -> bool {
    kind == "const_item"@ || kind == "static_item"@
}

/// The symbol of a `function_item`, named by its `name` child.
pub open spec fn function_symbol(
    node: SyntaxNode,
    source: Seq<char>,
    scope: Option<Seq<char>>,
) -> Option<SymbolView> {
    declaration(node, source, "name"@, SymbolKind::Function, scope)
}

/// The symbol of a `struct_item`, named by its `name` child.
pub open spec fn struct_symbol(
    node: SyntaxNode,
    source: Seq<char>,
    scope: Option<Seq<char>>,
) -> Option<SymbolView> {
    declaration(node, source, "name"@, SymbolKind::Class, scope)
}

/// The symbol of an `enum_item`, a `trait_item` or a `type_item`, named by
/// its `name` child.
pub open spec fn type_symbol(
    node: SyntaxNode,
    source: Seq<char>,
    scope: Option<Seq<char>>,
) -> Option<SymbolView> {
    declaration(node, source, "name"@, SymbolKind::Type, scope)
}

/// The scope that an `impl_item` gives what it holds: the text of its `type`
/// child.
pub open spec fn impl_scope(node: SyntaxNode, source: Seq<char>) -> Option<Seq<char>> {
    node.field_text(source, "type"@)
}

/// The symbol of a `use_declaration`, named by the text of its `argument`
/// child.
pub open spec fn use_symbol(
    node: SyntaxNode,
    source: Seq<char>,
    scope: Option<Seq<char>>,
) -> Option<SymbolView> {
    declaration(node, source, "argument"@, SymbolKind::Import, scope)
}

/// The symbol of a `const_item` or a `static_item`, named by its `name` child.
pub open spec fn constant_symbol(node: SyntaxNode, source: Seq<char>) -> Option<SymbolView> {
    declaration(node, source, "name"@, SymbolKind::Variable, None)
}

/// The symbols of the subtree at `node`, in document order, where `scope` is
/// the name of the innermost enclosing function or implemented type.
pub open spec fn symbols_of(
    node: SyntaxNode,
    source: Seq<char>,
    scope: Option<Seq<char>>,
) -> Seq<SymbolView>
    decreases node,
{
    if node.kind@ == "function_item"@ {
        match function_symbol(node, source, scope) {
            Some(symbol) => seq![symbol] + symbols_of_children(
                node.children@,
                source,
                Some(symbol.name),
                0,
            ),
            None => Seq::empty(),
        }
    } else if node.kind@ == "struct_item"@ {
        one_or_none(struct_symbol(node, source, scope))
    } else if is_type_kind(node.kind@) {
        one_or_none(type_symbol(node, source, scope))
    } else if node.kind@ == "impl_item"@ {
        match impl_scope(node, source) {
            Some(name) => symbols_of_children(node.children@, source, Some(name), 0),
            None => Seq::empty(),
        }
    } else if node.kind@ == "use_declaration"@ {
        one_or_none(use_symbol(node, source, scope))
    } else if is_constant_kind(node.kind@) {
        if scope is None {
            one_or_none(constant_symbol(node, source))
        } else {
            Seq::empty()
        }
    } else {
        symbols_of_children(node.children@, source, scope, 0)
    }
}

/// The symbols of the subtrees at `children[from..]`, one subtree after the
/// other.
pub open spec fn symbols_of_children(
    children: Seq<SyntaxNode>,
    source: Seq<char>,
    scope: Option<Seq<char>>,
    from: int,
) -> Seq<SymbolView>
    decreases children, children.len() - from,
{
    if 0 <= from < children.len() {
        symbols_of(children[from], source, scope) + symbols_of_children(
            children,
            source,
            scope,
            from + 1,
        )
    } else {
        Seq::empty()
    }
}

/// Every symbol of a subtree has its lines in order, is unstored and belongs
/// to no file yet.
pub proof fn lemma_symbols_of(node: SyntaxNode, source: Seq<char>, scope: Option<Seq<char>>)
    ensures
        all_lines_ordered(symbols_of(node, source, scope)),
        all_unassigned(symbols_of(node, source, scope)),
    decreases node,
{
    if node.kind@ == "function_item"@ {
        if let Some(symbol) = function_symbol(node, source, scope) {
            lemma_symbols_of_children(node.children@, source, Some(symbol.name), 0);
        }
    } else if node.kind@ == "struct_item"@ {
    } else if is_type_kind(node.kind@) {
    } else if node.kind@ == "impl_item"@ {
        if let Some(name) = impl_scope(node, source) {
            lemma_symbols_of_children(node.children@, source, Some(name), 0);
        }
    } else if node.kind@ == "use_declaration"@ {
    } else if is_constant_kind(node.kind@) {
    } else {
        lemma_symbols_of_children(node.children@, source, scope, 0);
    }
}

/// `lemma_symbols_of`, for the subtrees at `children[from..]`.
pub proof fn lemma_symbols_of_children(
    children: Seq<SyntaxNode>,
    source: Seq<char>,
    scope: Option<Seq<char>>,
    from: int,
)
    ensures
        all_lines_ordered(symbols_of_children(children, source, scope, from)),
        all_unassigned(symbols_of_children(children, source, scope, from)),
    decreases children, children.len() - from,
{
    if 0 <= from < children.len() {
        lemma_symbols_of(children[from], source, scope);
        lemma_symbols_of_children(children, source, scope, from + 1);
    }
}

/// Extracts the symbol of a function.
pub fn extract_function(node: &SyntaxNode, source: &str, scope: Option<&str>) -> (r: Option<
    Symbol,
>)
    ensures
        opt_symbol_view(r) == function_symbol(*node, source@, opt_str_view(scope)),
{
    declare(node, source, "name", SymbolKind::Function, scope)
}

/// Extracts the symbol of a struct.
pub fn extract_struct(node: &SyntaxNode, source: &str, scope: Option<&str>) -> (r: Option<Symbol>)
    ensures
        opt_symbol_view(r) == struct_symbol(*node, source@, opt_str_view(scope)),
{
    declare(node, source, "name", SymbolKind::Class, scope)
}

/// Extracts the symbol of an enum.
pub fn extract_enum(node: &SyntaxNode, source: &str, scope: Option<&str>) -> (r: Option<Symbol>)
    ensures
        opt_symbol_view(r) == type_symbol(*node, source@, opt_str_view(scope)),
{
    declare(node, source, "name", SymbolKind::Type, scope)
}

/// Extracts the symbol of a trait.
pub fn extract_trait(node: &SyntaxNode, source: &str, scope: Option<&str>) -> (r: Option<Symbol>)
    ensures
        opt_symbol_view(r) == type_symbol(*node, source@, opt_str_view(scope)),
{
    declare(node, source, "name", SymbolKind::Type, scope)
}

/// Extracts the symbol of a type alias.
pub fn extract_type_alias(node: &SyntaxNode, source: &str, scope: Option<&str>) -> (r: Option<
    Symbol,
>)
    ensures
        opt_symbol_view(r) == type_symbol(*node, source@, opt_str_view(scope)),
{
    declare(node, source, "name", SymbolKind::Type, scope)
}

/// The name of the type that an impl block implements.
pub fn extract_impl_scope(node: &SyntaxNode, source: &str) -> (r: Option<String>)
    ensures
        opt_view(r) == impl_scope(*node, source@),
{
    node.field_text_of(source, "type")
}

/// Extracts the symbol of a use declaration.
pub fn extract_use(node: &SyntaxNode, source: &str, scope: Option<&str>) -> (r: Option<Symbol>)
    ensures
        opt_symbol_view(r) == use_symbol(*node, source@, opt_str_view(scope)),
{
    declare(node, source, "argument", SymbolKind::Import, scope)
}

/// Extracts the symbol of a constant or a static.
pub fn extract_constant(node: &SyntaxNode, source: &str) -> (r: Option<Symbol>)
    ensures
        opt_symbol_view(r) == constant_symbol(*node, source@),
{
    declare(node, source, "name", SymbolKind::Variable, None)
}

/// Appends the symbols of the subtree at `node` to `symbols`.
pub fn extract_from_node(
    node: &SyntaxNode,
    source: &str,
    symbols: &mut Vec<Symbol>,
    parent_scope: Option<&str>,
)
    ensures
        symbol_views(final(symbols)@) == symbol_views(old(symbols)@) + symbols_of(
            *node,
            source@,
            opt_str_view(parent_scope),
        ),
    decreases node, 1int,
{
    if node.is_kind("function_item") {
        match extract_function(node, source, parent_scope) {
            Some(symbol) => {
                let name = symbol.name.clone();
                push_symbol(symbols, symbol);
                extract_from_children(node, source, symbols, Some(name.as_str()));
            },
            None => {},
        }
    } else if node.is_kind("struct_item") {
        push_found(symbols, extract_struct(node, source, parent_scope));
    } else if node.is_kind("enum_item") {
        push_found(symbols, extract_enum(node, source, parent_scope));
    } else if node.is_kind("trait_item") {
        push_found(symbols, extract_trait(node, source, parent_scope));
    } else if node.is_kind("type_item") {
        push_found(symbols, extract_type_alias(node, source, parent_scope));
    } else if node.is_kind("impl_item") {
        match extract_impl_scope(node, source) {
            Some(name) => {
                extract_from_children(node, source, symbols, Some(name.as_str()));
            },
            None => {},
        }
    } else if node.is_kind("use_declaration") {
        push_found(symbols, extract_use(node, source, parent_scope));
    } else if node.is_kind("const_item") || node.is_kind("static_item") {
        if parent_scope.is_none() {
            push_found(symbols, extract_constant(node, source));
        }
    } else {
        extract_from_children(node, source, symbols, parent_scope);
    }
}

/// Appends the symbols of the subtrees at the children of `node`.
pub fn extract_from_children(
    node: &SyntaxNode,
    source: &str,
    symbols: &mut Vec<Symbol>,
    scope: Option<&str>,
)
    ensures
        symbol_views(final(symbols)@) == symbol_views(old(symbols)@) + symbols_of_children(
            node.children@,
            source@,
            opt_str_view(scope),
            0,
        ),
    decreases node, 0int,
{
    let ghost before = symbol_views(symbols@);
    let ghost all = symbols_of_children(node.children@, source@, opt_str_view(scope), 0);
    let mut i: usize = 0;
    while i < node.children.len()
        invariant
            i <= node.children.len(),
            before + all == symbol_views(symbols@) + symbols_of_children(
                node.children@,
                source@,
                opt_str_view(scope),
                i as int,
            ),
        decreases node.children.len() - i,
    {
        extract_from_node(&node.children[i], source, symbols, scope);
        i += 1;
    }
}

/// The symbols of a whole tree, in document order.
pub fn extract_from_tree(root: &SyntaxNode, source: &str) -> (r: Vec<Symbol>)
    ensures
        symbol_views(r@) == symbols_of(*root, source@, None),
        all_lines_ordered(symbol_views(r@)),
        all_unassigned(symbol_views(r@)),
{
    let mut symbols: Vec<Symbol> = Vec::new();
    extract_from_node(root, source, &mut symbols, None);
    proof {
        lemma_symbols_of(*root, source@, None);
    }
    symbols
}

/// A parser for Rust sources.
pub struct RustParser {
    parser: tree_sitter::Parser,
}

impl RustParser {
    /// The parser has the Rust grammar and finishes every parse it begins.
    pub closed spec fn ready(self) -> bool {
        parser_grammar(self.parser) == Some(Grammar::Rust) && parser_unhindered(self.parser)
    }

    /// A parser with the Rust grammar.
    pub fn new() -> (r: Result<RustParser, ParseError>)
        ensures
            r matches Ok(parser) && parser.ready(),
    {
        let mut parser = new_parser();
        match set_rust(&mut parser) {
            Ok(_) => Ok(RustParser { parser }),
            Err(_) => Err(ParseError::IncompatibleGrammar),
        }
    }

    /// Parses a source text, whatever it holds: there is always a tree, built
    /// under the Rust grammar, and it holds the syntax that the grammar gives
    /// the text.
    pub fn parse(&mut self, source: &str) -> (r: Result<tree_sitter::Tree, ParseError>)
        requires
            old(self).ready(),
        ensures
            final(self).ready(),
            r matches Ok(tree) && tree_grammar(tree) == Some(Grammar::Rust) && forall|
                fields: Seq<Seq<char>>,
            | #[trigger]
                tree_syntax(tree, fields) == parsed_syntax(Grammar::Rust, source@, None, fields),
    {
        match parse_text(&mut self.parser, source, None) {
            Some(tree) => Ok(tree),
            None => Err(ParseError::NoTree),
        }
    }

    /// Parses a source text, reusing what it can of an earlier tree of the
    /// same document, which a parser of the Rust grammar must have built.
    /// There is always a tree, and it holds the syntax that the grammar gives
    /// the text and the earlier tree.
    pub fn parse_with_old_tree(&mut self, source: &str, old_tree: &tree_sitter::Tree) -> (r:
        Result<tree_sitter::Tree, ParseError>)
        requires
            old(self).ready(),
            tree_grammar(*old_tree) == Some(Grammar::Rust),
        ensures
            final(self).ready(),
            r matches Ok(tree) && tree_grammar(tree) == Some(Grammar::Rust) && forall|
                fields: Seq<Seq<char>>,
            | #[trigger]
                tree_syntax(tree, fields) == parsed_syntax(
                    Grammar::Rust,
                    source@,
                    Some(*old_tree),
                    fields,
                ),
    {
        match parse_text(&mut self.parser, source, Some(old_tree)) {
            Some(tree) => Ok(tree),
            None => Err(ParseError::NoTree),
        }
    }
}

/// The symbols of a parsed Rust source, in document order.
pub fn extract_symbols(tree: &tree_sitter::Tree, source: &str) -> (r: Vec<Symbol>)
    ensures
        symbol_views(r@) == symbols_of(
            tree_syntax(*tree, recorded_field_names()),
            source@,
            None,
        ),
        all_lines_ordered(symbol_views(r@)),
        all_unassigned(symbol_views(r@)),
{
    let fields = recorded_fields();
    let root = snapshot(tree, &fields);
    extract_from_tree(&root, source)
}

/// Parses a Rust source and extracts its symbols. The symbols are those of
/// the syntax that the Rust grammar gives the source.
pub fn analyze_rust(source: &str) -> (r: Result<Vec<Symbol>, ParseError>)
    ensures
        r matches Ok(symbols) && {
            &&& symbol_views(symbols@) == symbols_of(
                parsed_syntax(Grammar::Rust, source@, None, recorded_field_names()),
                source@,
                None,
            )
            &&& all_lines_ordered(symbol_views(symbols@))
            &&& all_unassigned(symbol_views(symbols@))
        },
{
    let mut parser = match RustParser::new() {
        Ok(parser) => parser,
        Err(error) => {
            return Err(error);
        },
    };
    match parser.parse(source) {
        Ok(tree) => Ok(extract_symbols(&tree, source)),
        Err(error) => Err(error),
    }
}

} // verus!
