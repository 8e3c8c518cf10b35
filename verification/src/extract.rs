//! What the extractors of all languages share: how a node becomes a symbol.

use vstd::prelude::*;
use crate::symbol::{symbol_views, Symbol, SymbolKind, SymbolView};
use crate::syntax::SyntaxNode;
use crate::text::{opt_str_view, opt_to_owned, opt_view};

verus! {

/// The view of an optional symbol.
pub open spec fn opt_symbol_view(o: Option<Symbol>) -> Option<SymbolView> {
    match o {
        Some(s) => Some(s@),
        None => None,
    }
}

/// The symbol that `node` stands for under the name `name`: not yet stored,
/// of no file yet, and on the node's rows.
pub open spec fn symbol_over(
    node: SyntaxNode,
    name: Seq<char>,
    kind: SymbolKind,
    scope: Option<Seq<char>>,
) -> SymbolView {
    SymbolView {
        id: None,
        file_id: 0,
        name,
        kind,
        line_start: node.start_row as nat,
        line_end: node.end_row as nat,
        scope,
        metadata: None,
    }
}

/// The symbol that `node` declares under an optional name. A node without a
/// name, or whose rows are out of order, declares nothing.
pub open spec fn named(
    node: SyntaxNode,
    name: Option<Seq<char>>,
    kind: SymbolKind,
    scope: Option<Seq<char>>,
) -> Option<SymbolView> {
    match name {
        Some(n) => if node.start_row <= node.end_row {
            Some(symbol_over(node, n, kind, scope))
        } else {
            None
        },
        None => None,
    }
}

/// The symbol that `node` declares when its name is the text of the child in
/// `field`.
pub open spec fn declaration(
    node: SyntaxNode,
    source: Seq<char>,
    field: Seq<char>,
    kind: SymbolKind,
    scope: Option<Seq<char>>,
) -> Option<SymbolView> {
    named(node, node.field_text(source, field), kind, scope)
}

/// A sequence of no symbol or one.
pub open spec fn one_or_none(symbol: Option<SymbolView>) -> Seq<SymbolView> {
    match symbol {
        Some(s) => seq![s],
        None => Seq::empty(),
    }
}

/// Every symbol of a sequence has its lines in order.
pub open spec fn all_lines_ordered(symbols: Seq<SymbolView>) -> bool {
    forall|i: int| 0 <= i < symbols.len() ==> (#[trigger] symbols[i]).lines_ordered()
}

/// Every symbol of a sequence is unstored and belongs to no file yet.
pub open spec fn all_unassigned(symbols: Seq<SymbolView>) -> bool {
    forall|i: int|
        0 <= i < symbols.len() ==> (#[trigger] symbols[i]).id is None && symbols[i].file_id == 0
}

/// Builds the symbol that `node` declares under an optional name.
pub fn name_symbol(
    node: &SyntaxNode,
    name: Option<String>,
    kind: SymbolKind,
    scope: Option<&str>,
) -> (r: Option<Symbol>)
    ensures
        opt_symbol_view(r) == named(*node, opt_view(name), kind, opt_str_view(scope)),
{
    match name {
        Some(n) => {
            if node.start_row <= node.end_row {
                Some(
                    Symbol {
                        id: None,
                        file_id: 0,
                        name: n,
                        kind,
                        line_start: node.start_row,
                        line_end: node.end_row,
                        scope: opt_to_owned(scope),
                        metadata: None,
                    },
                )
            } else {
                None
            }
        },
        None => None,
    }
}

/// Builds the symbol that `node` declares when its name is the text of the
/// child in `field`.
pub fn declare(
    node: &SyntaxNode,
    source: &str,
    field: &str,
    kind: SymbolKind,
    scope: Option<&str>,
) -> (r: Option<Symbol>)
    ensures
        opt_symbol_view(r) == declaration(*node, source@, field@, kind, opt_str_view(scope)),
{
    name_symbol(node, node.field_text_of(source, field), kind, scope)
}

/// Appends a symbol to the list.
pub fn push_symbol(symbols: &mut Vec<Symbol>, symbol: Symbol)
    ensures
        symbol_views(final(symbols)@) == symbol_views(old(symbols)@) + seq![symbol@],
{
    symbols.push(symbol);
}

/// Appends a symbol to the list, if there is one.
pub fn push_found(symbols: &mut Vec<Symbol>, found: Option<Symbol>)
    ensures
        symbol_views(final(symbols)@) == symbol_views(old(symbols)@) + one_or_none(
            opt_symbol_view(found),
        ),
{
    match found {
        Some(symbol) => {
            push_symbol(symbols, symbol);
        },
        None => {
        },
    }
}

} // verus!
