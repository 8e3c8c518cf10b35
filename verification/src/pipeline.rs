//! The decisions of the indexing pipeline: the metadata recorded for a file,
//! the analyzer that its language calls for, and the commands that bring the
//! stored symbols of a file up to date.

use vstd::prelude::*;
use crate::indexer::{fresh_metadata, IndexerConfig};
use crate::language::{
    detect_language, is_language_tag, language_detection_is_total, language_of,
};
use crate::extract::{all_lines_ordered, all_unassigned};
use crate::parser::{parsed_syntax, recorded_field_names, Grammar, ParseError};
use crate::python::analyze_python;
use crate::rust::analyze_rust;
use crate::symbol::{symbol_views, FileMetadata, FileMetadataView, Symbol, SymbolView};
use crate::syntax::SyntaxNode;
use crate::text::{opt_clone, str_eq};
use crate::typescript::analyze_typescript;

verus! {

/// The language recorded for a file when its extension is not a supported
/// one.
pub open spec fn language_or_unknown(path: Seq<char>) -> Seq<char> {
    match language_of(path) {
        Some(language) => language,
        None => "unknown"@,
    }
}

/// The metadata recorded for a discovered file of `size` bytes.
pub fn indexed_metadata(path: &str, size: u64) -> (r: FileMetadata)
    ensures
        r@ == fresh_metadata(path@, language_or_unknown(path@), size),
{
    let language = match detect_language(path) {
        Some(language) => language,
        None => "unknown",
    };
    FileMetadata {
        id: None,
        path: path.to_owned(),
        language: language.to_owned(),
        size,
        last_indexed: None,
        parse_errors: 0,
    }
}

/// A file that the configuration admits is recorded with one of the four
/// language tags, never as unknown.
pub proof fn admitted_files_have_a_language(config: IndexerConfig, path: Seq<char>, size: u64)
    requires
        config.admits(path, size),
    ensures
        is_language_tag(language_or_unknown(path)),
        language_of(path) == Some(language_or_unknown(path)),
{
    language_detection_is_total(path);
}

/// The grammar with which files of a language are analyzed. JavaScript is
/// analyzed with the TypeScript grammar.
pub open spec fn grammar_of(language: Seq<char>) -> Option<Grammar> {
    if language == "python"@ {
        Some(Grammar::Python)
    } else if language == "typescript"@ || language == "javascript"@ {
        Some(Grammar::TypeScript)
    } else if language == "rust"@ {
        Some(Grammar::Rust)
    } else {
        None
    }
}

/// The symbols that the extractor of a grammar finds in a tree.
pub open spec fn symbols_in(grammar: Grammar, root: SyntaxNode, source: Seq<char>) -> Seq<
    SymbolView,
> {
    match grammar {
        Grammar::Python => crate::python::symbols_of(root, source, None),
        Grammar::TypeScript => crate::typescript::symbols_of(root, source, None),
        Grammar::Rust => crate::rust::symbols_of(root, source, None),
    }
}

/// The symbols of a source under a grammar: those that the grammar's
/// extractor finds in the syntax that the grammar gives the source.
pub open spec fn analysis_of(grammar: Grammar, source: Seq<char>) -> Seq<SymbolView> {
    symbols_in(grammar, parsed_syntax(grammar, source, None, recorded_field_names()), source)
}

/// The grammar with which files of a language are analyzed.
pub fn grammar_for(language: &str) -> (r: Option<Grammar>)
    ensures
        r == grammar_of(language@),
{
    if str_eq(language, "python") {
        Some(Grammar::Python)
    } else if str_eq(language, "typescript") || str_eq(language, "javascript") {
        Some(Grammar::TypeScript)
    } else if str_eq(language, "rust") {
        Some(Grammar::Rust)
    } else {
        None
    }
}

/// The symbols of an analysis; an analysis that failed has none.
pub fn symbols_or_none(analysis: Result<Vec<Symbol>, ParseError>) -> (r: Vec<Symbol>)
    ensures
        match analysis {
            Ok(symbols) => r == symbols,
            Err(_) => r@.len() == 0,
        },
{
    match analysis {
        Ok(symbols) => symbols,
        Err(_) => Vec::new(),
    }
}

/// The symbols recorded for a source of a language: those of its analysis
/// where the language has an analyzer, else none.
pub open spec fn recorded_symbols(language: Seq<char>, source: Seq<char>) -> Seq<SymbolView> {
    match grammar_of(language) {
        Some(grammar) => analysis_of(grammar, source),
        None => Seq::empty(),
    }
}

/// Analyzes a source with the analyzer of its language. A language without
/// an analyzer has no symbols.
pub fn analyze_source(language: &str, source: &str) -> (r: Vec<Symbol>)
    ensures
        symbol_views(r@) == recorded_symbols(language@, source@),
        all_lines_ordered(symbol_views(r@)),
        all_unassigned(symbol_views(r@)),
{
    match grammar_for(language) {
        Some(Grammar::Python) => symbols_or_none(analyze_python(source)),
        Some(Grammar::TypeScript) => symbols_or_none(analyze_typescript(source)),
        Some(Grammar::Rust) => symbols_or_none(analyze_rust(source)),
        None => Vec::new(),
    }
}

/// Two analyses of the same source under the same grammar give the same
/// symbols, in the same order and with the same fields.
pub proof fn analysis_is_deterministic(
    first: Seq<Symbol>,
    second: Seq<Symbol>,
    grammar: Grammar,
    source: Seq<char>,
)
    requires
        symbol_views(first) == analysis_of(grammar, source),
        symbol_views(second) == analysis_of(grammar, source),
    ensures
        first.len() == second.len(),
        forall|i: int| 0 <= i < first.len() ==> first[i]@ == second[i]@,
{
    assert(symbol_views(second).len() == second.len());
    assert forall|i: int| 0 <= i < first.len() implies first[i]@ == second[i]@ by {
        assert(symbol_views(second)[i] == second[i]@);
    }
}

/// A command to the store.
#[derive(Debug, Clone, PartialEq, Eq)]
pub enum StoreCommand {
    /// Remove every symbol of this file.
    DeleteFileSymbols(i64),
    /// Insert this symbol.
    InsertSymbol(Symbol),
}

/// What a `StoreCommand` holds, as mathematical values.
pub enum StoreCommandView {
    DeleteFileSymbols(i64),
    InsertSymbol(SymbolView),
}

impl View for StoreCommand {
    type V = StoreCommandView;

    open spec fn view(&self) -> StoreCommandView {
        match self {
            StoreCommand::DeleteFileSymbols(file_id) => StoreCommandView::DeleteFileSymbols(
                *file_id,
            ),
            StoreCommand::InsertSymbol(symbol) => StoreCommandView::InsertSymbol(symbol@),
        }
    }
}

/// The views of a sequence of commands, in order.
pub open spec fn commands_view(commands: Seq<StoreCommand>) -> Seq<StoreCommandView> {
    Seq::new(commands.len(), |i: int| commands[i]@)
}

/// The file whose symbols are refreshed after a lookup of its path: the one
/// found, if the store gave it a positive id.
pub open spec fn target_of(found: Option<FileMetadataView>) -> Option<i64> {
    match found {
        Some(file) => match file.id {
            Some(id) => if id > 0 {
                Some(id)
            } else {
                None
            },
            None => None,
        },
        None => None,
    }
}

/// Decides, after the lookup of a file's path, whether its symbols are
/// refreshed and under which id.
pub fn refresh_target(found: &Option<FileMetadata>) -> (r: Option<i64>)
    ensures
        r == target_of(
            match *found {
                Some(file) => Some(file@),
                None => None,
            },
        ),
{
    match found {
        Some(file) => match file.id {
            Some(id) => if id > 0 {
                Some(id)
            } else {
                None
            },
            None => None,
        },
        None => None,
    }
}

/// The commands that refresh the symbols of the file `file_id`: first its
/// stored symbols are deleted, then each extracted symbol is inserted as a
/// symbol of that file, in the order of extraction.
pub open spec fn refresh_plan(file_id: i64, symbols: Seq<SymbolView>) -> Seq<StoreCommandView> {
    seq![StoreCommandView::DeleteFileSymbols(file_id)] + Seq::new(
        symbols.len(),
        |i: int| StoreCommandView::InsertSymbol(SymbolView { file_id, ..symbols[i] }),
    )
}

/// Builds the commands that refresh the symbols of the file `file_id`.
pub fn refresh_commands(file_id: i64, symbols: &Vec<Symbol>) -> (r: Vec<StoreCommand>)
    ensures
        commands_view(r@) == refresh_plan(file_id, symbol_views(symbols@)),
{
    let mut commands: Vec<StoreCommand> = Vec::new();
    commands.push(StoreCommand::DeleteFileSymbols(file_id));
    let mut i: usize = 0;
    while i < symbols.len()
        invariant
            i <= symbols.len(),
            commands@.len() == i + 1,
            commands@[0]@ == StoreCommandView::DeleteFileSymbols(file_id),
            forall|j: int|
                0 <= j < i ==> (#[trigger] commands@[j + 1])@ == StoreCommandView::InsertSymbol(
                    SymbolView { file_id, ..symbols@[j]@ },
                ),
        decreases symbols.len() - i,
    {
        let s = &symbols[i];
        let stamped = Symbol {
            id: s.id,
            file_id,
            name: s.name.clone(),
            kind: s.kind,
            line_start: s.line_start,
            line_end: s.line_end,
            scope: opt_clone(&s.scope),
            metadata: opt_clone(&s.metadata),
        };
        commands.push(StoreCommand::InsertSymbol(stamped));
        i += 1;
    }
    assert(commands_view(commands@) =~= refresh_plan(file_id, symbol_views(symbols@))) by {
        let plan = refresh_plan(file_id, symbol_views(symbols@));
        assert forall|k: int| 0 <= k < plan.len() implies commands_view(commands@)[k]
            == plan[k] by {
            if k > 0 {
                assert(commands@[(k - 1) + 1]@ == StoreCommandView::InsertSymbol(
                    SymbolView { file_id, ..symbols@[k - 1]@ },
                ));
            }
        }
    }
    commands
}

/// In a refresh the store sees the deletion before any insertion, and every
/// insertion is of a symbol of the file that is refreshed.
pub proof fn refresh_deletes_before_it_inserts(file_id: i64, symbols: Seq<SymbolView>)
    ensures
        refresh_plan(file_id, symbols).len() == symbols.len() + 1,
        refresh_plan(file_id, symbols)[0] == StoreCommandView::DeleteFileSymbols(file_id),
        forall|k: int|
            1 <= k <= symbols.len() ==> (#[trigger] refresh_plan(file_id, symbols)[k])
                == StoreCommandView::InsertSymbol(SymbolView { file_id, ..symbols[k - 1] }),
{
}

/// Two refreshes of a file from the same source send the store the same
/// commands in the same order.
pub proof fn refresh_is_repeatable(
    first: Seq<StoreCommand>,
    second: Seq<StoreCommand>,
    file_id: i64,
    grammar: Grammar,
    source: Seq<char>,
)
    requires
        commands_view(first) == refresh_plan(file_id, analysis_of(grammar, source)),
        commands_view(second) == refresh_plan(file_id, analysis_of(grammar, source)),
    ensures
        first.len() == second.len(),
        forall|k: int| 0 <= k < first.len() ==> first[k]@ == second[k]@,
{
    assert(commands_view(first).len() == first.len());
    assert(commands_view(second).len() == second.len());
    assert forall|k: int| 0 <= k < first.len() implies first[k]@ == second[k]@ by {
        assert(commands_view(first)[k] == first[k]@);
        assert(commands_view(second)[k] == second[k]@);
    }
}

} // verus!
