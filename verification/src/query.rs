//! The queries of the index: the statement of each with the values it binds,
//! and how the rows that come back are read and checked against the query.

use vstd::prelude::*;
use vstd::string::StringExecFns;
use crate::store::{
    file_from_row, file_of_row, get_integer, get_text, integer_at, symbol_from_row, symbol_of_row,
    symbol_round_trip, symbol_values, text_at_column, values_view, SqlValue, SqlValueView,
    StoreError,
};
use crate::symbol::{
    file_views, symbol_views, FileMetadata, FileMetadataView, Symbol, SymbolKind, SymbolView,
};
use crate::text::str_eq;

verus! {

/// A query for symbols.
#[derive(Debug, Clone)]
pub enum SymbolQuery {
    /// The symbols of this name.
    ByName(String),
    /// The symbols of this kind.
    ByKind(SymbolKind),
    /// The symbols of this name and kind.
    ByNameAndKind(String, SymbolKind),
    /// The symbols of this file, by first line.
    ByFile(i64),
    /// The symbols of this file and kind, by first line.
    ByFileAndKind(i64, SymbolKind),
    /// The imports of this file, by first line.
    ImportsOfFile(i64),
    /// The exports of this file, by first line.
    ExportsOfFile(i64),
}

/// Why a query gave no result.
#[derive(Debug, Clone, Copy, PartialEq, Eq, Structural)]
pub enum QueryError {
    /// The path or id that was asked for is not in the store.
    NotFound,
    /// A row could not be read.
    Row(StoreError),
    /// The rows are not what the query asks for.
    UnexpectedRows,
}

/// Selects the symbols whose name is bound.
pub const FIND_SYMBOLS_BY_NAME_SQL: &'static str =
    "SELECT id, file_id, name, kind, line_start, line_end, scope, metadata
         FROM symbols WHERE name = ?1";

/// Selects the symbols whose kind is bound.
pub const FIND_SYMBOLS_BY_KIND_SQL: &'static str =
    "SELECT id, file_id, name, kind, line_start, line_end, scope, metadata
         FROM symbols WHERE kind = ?1";

/// Selects the symbols whose name and kind are bound.
pub const FIND_SYMBOLS_BY_NAME_AND_KIND_SQL: &'static str =
    "SELECT id, file_id, name, kind, line_start, line_end, scope, metadata
         FROM symbols WHERE name = ?1 AND kind = ?2";

/// Selects the symbols of the file that is bound, by first line.
pub const FIND_SYMBOLS_BY_FILE_SQL: &'static str =
    "SELECT id, file_id, name, kind, line_start, line_end, scope, metadata
         FROM symbols WHERE file_id = ?1 ORDER BY line_start";

/// Selects the symbols of the file and the kind that are bound, by first
/// line.
pub const FIND_SYMBOLS_BY_FILE_AND_KIND_SQL: &'static str =
    "SELECT id, file_id, name, kind, line_start, line_end, scope, metadata
         FROM symbols WHERE file_id = ?1 AND kind = ?2 ORDER BY line_start";

/// Selects the imports of the file that is bound, by first line.
pub const FIND_IMPORTS_BY_FILE_SQL: &'static str =
    "SELECT id, file_id, name, kind, line_start, line_end, scope, metadata
         FROM symbols WHERE file_id = ?1 AND kind = 'import' ORDER BY line_start";

/// Selects the exports of the file that is bound, by first line.
pub const FIND_EXPORTS_BY_FILE_SQL: &'static str =
    "SELECT id, file_id, name, kind, line_start, line_end, scope, metadata
         FROM symbols WHERE file_id = ?1 AND kind = 'export' ORDER BY line_start";

/// Selects the id of the file whose path is bound.
pub const FILE_ID_BY_PATH_SQL: &'static str = "SELECT id FROM files WHERE path = ?1";

/// Selects the path of the file whose id is bound.
pub const FILE_PATH_BY_ID_SQL: &'static str = "SELECT path FROM files WHERE id = ?1";

/// Selects every file.
pub const LIST_FILES_SQL: &'static str =
    "SELECT id, path, language, size, last_indexed, parse_errors FROM files";

/// Selects, for each language, the number of its files and their total size.
pub const LANGUAGE_STATS_SQL: &'static str =
    "SELECT language, COUNT(*) as count, SUM(size) as total_size
         FROM files GROUP BY language";

/// Brings the statistics of the query planner up to date.
pub const ANALYZE_SQL: &'static str = "ANALYZE";

/// Reclaims the space of deleted rows.
pub const VACUUM_SQL: &'static str = "VACUUM";

/// What is put before a statement to ask for its plan.
pub const EXPLAIN_PREFIX: &'static str = "EXPLAIN QUERY PLAN ";

impl SymbolQuery {
    /// Whether the query asks for this symbol.
    pub open spec fn selects(self, symbol: SymbolView) -> bool {
        match self {
            SymbolQuery::ByName(name) => symbol.name == name@,
            SymbolQuery::ByKind(kind) => symbol.kind == kind,
            SymbolQuery::ByNameAndKind(name, kind) => symbol.name == name@ && symbol.kind == kind,
            SymbolQuery::ByFile(file_id) => symbol.file_id == file_id,
            SymbolQuery::ByFileAndKind(file_id, kind) => symbol.file_id == file_id && symbol.kind
                == kind,
            SymbolQuery::ImportsOfFile(file_id) => symbol.file_id == file_id && symbol.kind
                == SymbolKind::Import,
            SymbolQuery::ExportsOfFile(file_id) => symbol.file_id == file_id && symbol.kind
                == SymbolKind::Export,
        }
    }

    /// Whether the query asks for its symbols by first line.
    pub open spec fn ordered(self) -> bool {
        match self {
            SymbolQuery::ByName(_) => false,
            SymbolQuery::ByKind(_) => false,
            SymbolQuery::ByNameAndKind(_, _) => false,
            _ => true,
        }
    }

    /// The values that the query binds to its statement, in order.
    pub open spec fn bound(self) -> Seq<SqlValueView> {
        match self {
            SymbolQuery::ByName(name) => seq![SqlValueView::Text(name@)],
            SymbolQuery::ByKind(kind) => seq![SqlValueView::Text(kind.name())],
            SymbolQuery::ByNameAndKind(name, kind) => seq![
                SqlValueView::Text(name@),
                SqlValueView::Text(kind.name()),
            ],
            SymbolQuery::ByFile(file_id) => seq![SqlValueView::Integer(file_id)],
            SymbolQuery::ByFileAndKind(file_id, kind) => seq![
                SqlValueView::Integer(file_id),
                SqlValueView::Text(kind.name()),
            ],
            SymbolQuery::ImportsOfFile(file_id) => seq![SqlValueView::Integer(file_id)],
            SymbolQuery::ExportsOfFile(file_id) => seq![SqlValueView::Integer(file_id)],
        }
    }

    /// The statement of the query.
    pub open spec fn statement(self) -> Seq<char> {
        match self {
            SymbolQuery::ByName(_) => FIND_SYMBOLS_BY_NAME_SQL@,
            SymbolQuery::ByKind(_) => FIND_SYMBOLS_BY_KIND_SQL@,
            SymbolQuery::ByNameAndKind(_, _) => FIND_SYMBOLS_BY_NAME_AND_KIND_SQL@,
            SymbolQuery::ByFile(_) => FIND_SYMBOLS_BY_FILE_SQL@,
            SymbolQuery::ByFileAndKind(_, _) => FIND_SYMBOLS_BY_FILE_AND_KIND_SQL@,
            SymbolQuery::ImportsOfFile(_) => FIND_IMPORTS_BY_FILE_SQL@,
            SymbolQuery::ExportsOfFile(_) => FIND_EXPORTS_BY_FILE_SQL@,
        }
    }

    /// The statement to run for the query.
    pub fn sql(&self) -> (r: &'static str)
        ensures
            r@ == self.statement(),
    {
        match self {
            SymbolQuery::ByName(_) => FIND_SYMBOLS_BY_NAME_SQL,
            SymbolQuery::ByKind(_) => FIND_SYMBOLS_BY_KIND_SQL,
            SymbolQuery::ByNameAndKind(_, _) => FIND_SYMBOLS_BY_NAME_AND_KIND_SQL,
            SymbolQuery::ByFile(_) => FIND_SYMBOLS_BY_FILE_SQL,
            SymbolQuery::ByFileAndKind(_, _) => FIND_SYMBOLS_BY_FILE_AND_KIND_SQL,
            SymbolQuery::ImportsOfFile(_) => FIND_IMPORTS_BY_FILE_SQL,
            SymbolQuery::ExportsOfFile(_) => FIND_EXPORTS_BY_FILE_SQL,
        }
    }

    /// The values to bind to the statement.
    pub fn params(&self) -> (r: Vec<SqlValue>)
        ensures
            values_view(r@) == self.bound(),
    {
        let mut values: Vec<SqlValue> = Vec::new();
        match self {
            SymbolQuery::ByName(name) => {
                values.push(SqlValue::Text(name.clone()));
            },
            SymbolQuery::ByKind(kind) => {
                values.push(SqlValue::Text(kind.to_string()));
            },
            SymbolQuery::ByNameAndKind(name, kind) => {
                values.push(SqlValue::Text(name.clone()));
                values.push(SqlValue::Text(kind.to_string()));
            },
            SymbolQuery::ByFile(file_id) => {
                values.push(SqlValue::Integer(*file_id));
            },
            SymbolQuery::ByFileAndKind(file_id, kind) => {
                values.push(SqlValue::Integer(*file_id));
                values.push(SqlValue::Text(kind.to_string()));
            },
            SymbolQuery::ImportsOfFile(file_id) => {
                values.push(SqlValue::Integer(*file_id));
            },
            SymbolQuery::ExportsOfFile(file_id) => {
                values.push(SqlValue::Integer(*file_id));
            },
        }
        values
    }

    /// Whether the query asks for this symbol.
    pub fn matches_symbol(&self, symbol: &Symbol) -> (r: bool)
        ensures
            r == self.selects(symbol@),
    {
        match self {
            SymbolQuery::ByName(name) => str_eq(symbol.name.as_str(), name.as_str()),
            SymbolQuery::ByKind(kind) => symbol.kind == *kind,
            SymbolQuery::ByNameAndKind(name, kind) => str_eq(symbol.name.as_str(), name.as_str())
                && symbol.kind == *kind,
            SymbolQuery::ByFile(file_id) => symbol.file_id == *file_id,
            SymbolQuery::ByFileAndKind(file_id, kind) => symbol.file_id == *file_id && symbol.kind
                == *kind,
            SymbolQuery::ImportsOfFile(file_id) => symbol.file_id == *file_id && symbol.kind
                == SymbolKind::Import,
            SymbolQuery::ExportsOfFile(file_id) => symbol.file_id == *file_id && symbol.kind
                == SymbolKind::Export,
        }
    }

    /// Whether the query asks for its symbols by first line.
    pub fn is_ordered(&self) -> (r: bool)
        ensures
            r == self.ordered(),
    {
        match self {
            SymbolQuery::ByName(_) => false,
            SymbolQuery::ByKind(_) => false,
            SymbolQuery::ByNameAndKind(_, _) => false,
            _ => true,
        }
    }
}

/// No symbol begins on an earlier line than the one before it.
pub open spec fn sorted_by_line(symbols: Seq<SymbolView>) -> bool {
    forall|i: int, j: int|
        0 <= i <= j < symbols.len() ==> (#[trigger] symbols[i]).line_start <= (
        #[trigger] symbols[j]).line_start
}

/// The query asks for every one of the symbols.
pub open spec fn all_selected(query: SymbolQuery, symbols: Seq<SymbolView>) -> bool {
    forall|i: int| 0 <= i < symbols.len() ==> query.selects(#[trigger] symbols[i])
}

/// The symbols are a possible answer to the query: it asks for each of them,
/// and they are in its order.
pub open spec fn answers(query: SymbolQuery, symbols: Seq<SymbolView>) -> bool {
    all_selected(query, symbols) && (query.ordered() ==> sorted_by_line(symbols))
}

/// The views of a sequence of rows, in order.
pub open spec fn rows_view(rows: Seq<Vec<SqlValue>>) -> Seq<Seq<SqlValueView>> {
    Seq::new(rows.len(), |i: int| values_view(rows[i]@))
}

/// The symbols that the rows at or after `from` stand for, in order; the
/// first row that cannot be read decides the error.
pub open spec fn symbols_of_rows(rows: Seq<Seq<SqlValueView>>, from: int) -> Result<
    Seq<SymbolView>,
    StoreError,
>
    decreases rows.len() - from,
{
    if 0 <= from < rows.len() {
        match symbol_of_row(rows[from]) {
            Err(e) => Err(e),
            Ok(symbol) => match symbols_of_rows(rows, from + 1) {
                Err(e) => Err(e),
                Ok(rest) => Ok(seq![symbol] + rest),
            },
        }
    } else {
        Ok(Seq::empty())
    }
}

/// The answer that the rows give to a query: the symbols they stand for, if
/// every row can be read and the symbols are a possible answer.
pub open spec fn answer_of(query: SymbolQuery, rows: Seq<Seq<SqlValueView>>) -> Result<
    Seq<SymbolView>,
    QueryError,
> {
    match symbols_of_rows(rows, 0) {
        Err(e) => Err(QueryError::Row(e)),
        Ok(symbols) => if answers(query, symbols) {
            Ok(symbols)
        } else {
            Err(QueryError::UnexpectedRows)
        },
    }
}

/// The view of a result that holds symbols.
pub open spec fn symbols_result_view<E>(r: Result<Vec<Symbol>, E>) -> Result<Seq<SymbolView>, E> {
    match r {
        Ok(symbols) => Ok(symbol_views(symbols@)),
        Err(e) => Err(e),
    }
}

/// Reads the symbols that rows of the symbols table stand for.
pub fn symbols_from_rows(rows: &Vec<Vec<SqlValue>>) -> (r: Result<Vec<Symbol>, StoreError>)
    ensures
        symbols_result_view(r) == symbols_of_rows(rows_view(rows@), 0),
{
    let mut symbols: Vec<Symbol> = Vec::new();
    let mut i: usize = 0;
    while i < rows.len()
        invariant
            i <= rows.len(),
            symbols_of_rows(rows_view(rows@), 0) == (match symbols_of_rows(
                rows_view(rows@),
                i as int,
            ) {
                Ok(rest) => Ok(symbol_views(symbols@) + rest),
                Err(e) => Err(e),
            }),
        decreases rows.len() - i,
    {
        let ghost before = symbol_views(symbols@);
        let symbol = symbol_from_row(&rows[i])?;
        symbols.push(symbol);
        proof {
            assert(symbol_views(symbols@) =~= before + seq![symbol@]);
            match symbols_of_rows(rows_view(rows@), i + 1) {
                Ok(rest) => {
                    assert(before + (seq![symbol@] + rest) =~= (before + seq![symbol@]) + rest);
                },
                Err(_) => {},
            }
        }
        i += 1;
    }
    Ok(symbols)
}

/// Whether the query asks for every one of the symbols.
pub fn selects_all(query: &SymbolQuery, symbols: &Vec<Symbol>) -> (r: bool)
    ensures
        r == all_selected(*query, symbol_views(symbols@)),
{
    let mut i: usize = 0;
    while i < symbols.len()
        invariant
            i <= symbols.len(),
            forall|j: int| 0 <= j < i ==> query.selects(#[trigger] symbol_views(symbols@)[j]),
        decreases symbols.len() - i,
    {
        if !query.matches_symbol(&symbols[i]) {
            assert(!query.selects(symbol_views(symbols@)[i as int]));
            return false;
        }
        i += 1;
    }
    true
}

/// Whether no symbol begins on an earlier line than the one before it.
pub fn is_sorted_by_line(symbols: &Vec<Symbol>) -> (r: bool)
    ensures
        r == sorted_by_line(symbol_views(symbols@)),
{
    if symbols.len() < 2 {
        return true;
    }
    let ghost views = symbol_views(symbols@);
    let mut i: usize = 1;
    while i < symbols.len()
        invariant
            1 <= i <= symbols.len(),
            views == symbol_views(symbols@),
            forall|a: int, b: int|
                0 <= a <= b < i ==> (#[trigger] views[a]).line_start <= (
                #[trigger] views[b]).line_start,
        decreases symbols.len() - i,
    {
        if symbols[i - 1].line_start > symbols[i].line_start {
            assert(views[i - 1].line_start > views[i as int].line_start);
            return false;
        }
        assert forall|a: int, b: int| 0 <= a <= b < i + 1 implies (#[trigger] views[a]).line_start
            <= (#[trigger] views[b]).line_start by {
            if b == i && a < i {
                assert(views[a].line_start <= views[i - 1].line_start);
            }
        }
        i += 1;
    }
    true
}

/// Reads the answer to a query from the rows that its statement gave. The
/// rows must stand for symbols that the query asks for, in its order.
pub fn read_symbols(query: &SymbolQuery, rows: &Vec<Vec<SqlValue>>) -> (r: Result<
    Vec<Symbol>,
    QueryError,
>)
    ensures
        symbols_result_view(r) == answer_of(*query, rows_view(rows@)),
        r matches Ok(symbols) ==> answers(*query, symbol_views(symbols@)),
{
    let symbols = match symbols_from_rows(rows) {
        Ok(symbols) => symbols,
        Err(e) => {
            return Err(QueryError::Row(e));
        },
    };
    if !selects_all(query, &symbols) {
        return Err(QueryError::UnexpectedRows);
    }
    if query.is_ordered() && !is_sorted_by_line(&symbols) {
        return Err(QueryError::UnexpectedRows);
    }
    Ok(symbols)
}

/// The id in the first of the rows; a query that gave no row did not find
/// what it asked for.
pub open spec fn found_id(rows: Seq<Seq<SqlValueView>>) -> Result<i64, QueryError> {
    if rows.len() == 0 {
        Err(QueryError::NotFound)
    } else {
        match integer_at(rows[0], 0) {
            Ok(id) => Ok(id),
            Err(e) => Err(QueryError::Row(e)),
        }
    }
}

/// The path in the first of the rows; a query that gave no row did not find
/// what it asked for.
pub open spec fn found_path(rows: Seq<Seq<SqlValueView>>) -> Result<Seq<char>, QueryError> {
    if rows.len() == 0 {
        Err(QueryError::NotFound)
    } else {
        match text_at_column(rows[0], 0) {
            Ok(path) => Ok(path),
            Err(e) => Err(QueryError::Row(e)),
        }
    }
}

/// The file in the first of the rows, if there is a row.
pub open spec fn found_file(rows: Seq<Seq<SqlValueView>>) -> Result<
    Option<FileMetadataView>,
    StoreError,
> {
    if rows.len() == 0 {
        Ok(None)
    } else {
        match file_of_row(rows[0]) {
            Ok(file) => Ok(Some(file)),
            Err(e) => Err(e),
        }
    }
}

/// Reads the id of a file from the rows that `FILE_ID_BY_PATH_SQL` gave.
pub fn file_id_from_rows(rows: &Vec<Vec<SqlValue>>) -> (r: Result<i64, QueryError>)
    ensures
        r == found_id(rows_view(rows@)),
{
    if rows.len() == 0 {
        return Err(QueryError::NotFound);
    }
    match get_integer(&rows[0], 0) {
        Ok(id) => Ok(id),
        Err(e) => Err(QueryError::Row(e)),
    }
}

/// Reads the path of a file from the rows that `FILE_PATH_BY_ID_SQL` gave.
pub fn file_path_from_rows(rows: &Vec<Vec<SqlValue>>) -> (r: Result<String, QueryError>)
    ensures
        match r {
            Ok(path) => found_path(rows_view(rows@)) == Ok::<Seq<char>, QueryError>(path@),
            Err(e) => found_path(rows_view(rows@)) == Err::<Seq<char>, QueryError>(e),
        },
{
    if rows.len() == 0 {
        return Err(QueryError::NotFound);
    }
    match get_text(&rows[0], 0) {
        Ok(path) => Ok(path),
        Err(e) => Err(QueryError::Row(e)),
    }
}

/// Reads a file from the rows that `GET_FILE_BY_PATH_SQL` gave: the file of
/// the first row, or none where there is no row.
pub fn file_from_rows(rows: &Vec<Vec<SqlValue>>) -> (r: Result<Option<FileMetadata>, StoreError>)
    ensures
        match r {
            Ok(Some(file)) => found_file(rows_view(rows@)) == Ok::<
                Option<FileMetadataView>,
                StoreError,
            >(Some(file@)),
            Ok(None) => found_file(rows_view(rows@)) == Ok::<Option<FileMetadataView>, StoreError>(
                None,
            ),
            Err(e) => found_file(rows_view(rows@)) == Err::<Option<FileMetadataView>, StoreError>(
                e,
            ),
        },
{
    if rows.len() == 0 {
        return Ok(None);
    }
    match file_from_row(&rows[0]) {
        Ok(file) => Ok(Some(file)),
        Err(e) => Err(e),
    }
}

/// The files that the rows at or after `from` stand for, in order; the
/// first row that cannot be read decides the error.
pub open spec fn files_of_rows(rows: Seq<Seq<SqlValueView>>, from: int) -> Result<
    Seq<FileMetadataView>,
    StoreError,
>
    decreases rows.len() - from,
{
    if 0 <= from < rows.len() {
        match file_of_row(rows[from]) {
            Err(e) => Err(e),
            Ok(file) => match files_of_rows(rows, from + 1) {
                Err(e) => Err(e),
                Ok(rest) => Ok(seq![file] + rest),
            },
        }
    } else {
        Ok(Seq::empty())
    }
}

/// Reads the files that rows of the files table stand for.
pub fn files_from_rows(rows: &Vec<Vec<SqlValue>>) -> (r: Result<Vec<FileMetadata>, StoreError>)
    ensures
        match r {
            Ok(files) => files_of_rows(rows_view(rows@), 0) == Ok::<
                Seq<FileMetadataView>,
                StoreError,
            >(file_views(files@)),
            Err(e) => files_of_rows(rows_view(rows@), 0) == Err::<
                Seq<FileMetadataView>,
                StoreError,
            >(e),
        },
{
    let mut files: Vec<FileMetadata> = Vec::new();
    let mut i: usize = 0;
    while i < rows.len()
        invariant
            i <= rows.len(),
            files_of_rows(rows_view(rows@), 0) == (match files_of_rows(rows_view(rows@), i as int) {
                Ok(rest) => Ok(file_views(files@) + rest),
                Err(e) => Err(e),
            }),
        decreases rows.len() - i,
    {
        let ghost before = file_views(files@);
        let file = file_from_row(&rows[i])?;
        files.push(file);
        proof {
            assert(file_views(files@) =~= before + seq![file@]);
            match files_of_rows(rows_view(rows@), i + 1) {
                Ok(rest) => {
                    assert(before + (seq![file@] + rest) =~= (before + seq![file@]) + rest);
                },
                Err(_) => {},
            }
        }
        i += 1;
    }
    Ok(files)
}

/// The files of one language, counted and measured.
#[derive(Debug, Clone)]
pub struct LanguageStat {
    pub language: String,
    pub file_count: i64,
    pub total_size: i64,
}

/// What a `LanguageStat` holds, as mathematical values.
pub struct LanguageStatView {
    pub language: Seq<char>,
    pub file_count: i64,
    pub total_size: i64,
}

impl View for LanguageStat {
    type V = LanguageStatView;

    open spec fn view(&self) -> LanguageStatView {
        LanguageStatView {
            language: self.language@,
            file_count: self.file_count,
            total_size: self.total_size,
        }
    }
}

/// The views of a sequence of statistics, in order.
pub open spec fn stats_view(stats: Seq<LanguageStat>) -> Seq<LanguageStatView> {
    Seq::new(stats.len(), |i: int| stats[i]@)
}

/// The statistics that a row stands for. The columns are, in order: the
/// language, the number of files, their total size.
pub open spec fn stat_of_row(row: Seq<SqlValueView>) -> Result<LanguageStatView, StoreError> {
    match text_at_column(row, 0) {
        Err(e) => Err(e),
        Ok(language) => match integer_at(row, 1) {
            Err(e) => Err(e),
            Ok(file_count) => match integer_at(row, 2) {
                Err(e) => Err(e),
                Ok(total_size) => Ok(LanguageStatView { language, file_count, total_size }),
            },
        },
    }
}

/// The statistics that the rows at or after `from` stand for, in order.
pub open spec fn stats_of_rows(rows: Seq<Seq<SqlValueView>>, from: int) -> Result<
    Seq<LanguageStatView>,
    StoreError,
>
    decreases rows.len() - from,
{
    if 0 <= from < rows.len() {
        match stat_of_row(rows[from]) {
            Err(e) => Err(e),
            Ok(stat) => match stats_of_rows(rows, from + 1) {
                Err(e) => Err(e),
                Ok(rest) => Ok(seq![stat] + rest),
            },
        }
    } else {
        Ok(Seq::empty())
    }
}

/// Reads the statistics of one language from a row.
pub fn stat_from_row(row: &Vec<SqlValue>) -> (r: Result<LanguageStat, StoreError>)
    ensures
        match r {
            Ok(stat) => stat_of_row(values_view(row@)) == Ok::<LanguageStatView, StoreError>(stat@),
            Err(e) => stat_of_row(values_view(row@)) == Err::<LanguageStatView, StoreError>(e),
        },
{
    let language = get_text(row, 0)?;
    let file_count = get_integer(row, 1)?;
    let total_size = get_integer(row, 2)?;
    Ok(LanguageStat { language, file_count, total_size })
}

/// Reads the statistics of the languages from the rows that
/// `LANGUAGE_STATS_SQL` gave, one row for each language.
pub fn get_language_stats(rows: &Vec<Vec<SqlValue>>) -> (r: Result<Vec<LanguageStat>, StoreError>)
    ensures
        match r {
            Ok(stats) => stats_of_rows(rows_view(rows@), 0) == Ok::<
                Seq<LanguageStatView>,
                StoreError,
            >(stats_view(stats@)),
            Err(e) => stats_of_rows(rows_view(rows@), 0) == Err::<
                Seq<LanguageStatView>,
                StoreError,
            >(e),
        },
{
    let mut stats: Vec<LanguageStat> = Vec::new();
    let mut i: usize = 0;
    while i < rows.len()
        invariant
            i <= rows.len(),
            stats_of_rows(rows_view(rows@), 0) == (match stats_of_rows(rows_view(rows@), i as int) {
                Ok(rest) => Ok(stats_view(stats@) + rest),
                Err(e) => Err(e),
            }),
        decreases rows.len() - i,
    {
        let ghost before = stats_view(stats@);
        let stat = stat_from_row(&rows[i])?;
        stats.push(stat);
        proof {
            assert(stats_view(stats@) =~= before + seq![stat@]);
            match stats_of_rows(rows_view(rows@), i + 1) {
                Ok(rest) => {
                    assert(before + (seq![stat@] + rest) =~= (before + seq![stat@]) + rest);
                },
                Err(_) => {},
            }
        }
        i += 1;
    }
    Ok(stats)
}

/// The statement that asks for the plan of `query`.
pub fn explain_statement(query: &str) -> (r: String)
    ensures
        r@ == EXPLAIN_PREFIX@ + query@,
{
    EXPLAIN_PREFIX.to_owned().concat(query)
}

/// The text of a plan: the fourth column of each row at or after `from`, each
/// followed by a line break.
pub open spec fn plan_of_rows(rows: Seq<Seq<SqlValueView>>, from: int) -> Result<
    Seq<char>,
    StoreError,
>
    decreases rows.len() - from,
{
    if 0 <= from < rows.len() {
        match text_at_column(rows[from], 3) {
            Err(e) => Err(e),
            Ok(detail) => match plan_of_rows(rows, from + 1) {
                Err(e) => Err(e),
                Ok(rest) => Ok(detail + seq!['\n'] + rest),
            },
        }
    } else {
        Ok(Seq::empty())
    }
}

/// Reads the plan of a statement from the rows that its explanation gave.
pub fn analyze_query_plan(rows: &Vec<Vec<SqlValue>>) -> (r: Result<String, StoreError>)
    ensures
        match r {
            Ok(plan) => plan_of_rows(rows_view(rows@), 0) == Ok::<Seq<char>, StoreError>(plan@),
            Err(e) => plan_of_rows(rows_view(rows@), 0) == Err::<Seq<char>, StoreError>(e),
        },
{
    let mut plan = String::new();
    let mut i: usize = 0;
    while i < rows.len()
        invariant
            i <= rows.len(),
            plan_of_rows(rows_view(rows@), 0) == (match plan_of_rows(rows_view(rows@), i as int) {
                Ok(rest) => Ok(plan@ + rest),
                Err(e) => Err(e),
            }),
        decreases rows.len() - i,
    {
        let ghost before = plan@;
        let detail = get_text(&rows[i], 3)?;
        plan.append(detail.as_str());
        proof {
            reveal_strlit("\n");
            assert("\n"@ =~= seq!['\n']);
        }
        plan.append("\n");
        proof {
            match plan_of_rows(rows_view(rows@), i + 1) {
                Ok(rest) => {
                    assert(before + (detail@ + seq!['\n'] + rest) =~= before + detail@ + seq!['\n']
                        + rest);
                },
                Err(_) => {},
            }
        }
        i += 1;
    }
    Ok(plan)
}

/// The statements that optimise the store, in the order in which they run:
/// first the space of deleted rows is reclaimed, then the statistics of the
/// query planner are brought up to date.
pub fn optimize_statements() -> (r: Vec<&'static str>)
    ensures
        r@.len() == 2,
        r@[0]@ == VACUUM_SQL@,
        r@[1]@ == ANALYZE_SQL@,
{
    let mut statements: Vec<&'static str> = Vec::new();
    statements.push(VACUUM_SQL);
    statements.push(ANALYZE_SQL);
    statements
}

/// The symbols that rows stand for are as many as the rows, and each is the
/// symbol of its row.
pub proof fn lemma_symbols_of_rows(rows: Seq<Seq<SqlValueView>>, from: int)
    requires
        0 <= from <= rows.len(),
        symbols_of_rows(rows, from) is Ok,
    ensures
        symbols_of_rows(rows, from).unwrap().len() == rows.len() - from,
        forall|k: int|
            from <= k < rows.len() ==> symbol_of_row(#[trigger] rows[k]) == Ok::<
                SymbolView,
                StoreError,
            >(symbols_of_rows(rows, from).unwrap()[k - from]),
    decreases rows.len() - from,
{
    if from < rows.len() {
        lemma_symbols_of_rows(rows, from + 1);
        let first = symbol_of_row(rows[from]).unwrap();
        let rest = symbols_of_rows(rows, from + 1).unwrap();
        assert(symbols_of_rows(rows, from).unwrap() == seq![first] + rest);
        assert forall|k: int| from <= k < rows.len() implies symbol_of_row(#[trigger] rows[k])
            == Ok::<SymbolView, StoreError>(symbols_of_rows(rows, from).unwrap()[k - from]) by {
            if k > from {
                assert((seq![first] + rest)[k - from] == rest[k - from - 1]);
            }
        }
    }
}

/// The row of a written symbol alone answers the query for the symbol's name
/// and kind, and the answer is the symbol with the id of the row.
pub proof fn written_symbol_answers_its_query(query: SymbolQuery, symbol: SymbolView, id: i64)
    requires
        query matches SymbolQuery::ByNameAndKind(name, kind) && name@ == symbol.name && kind
            == symbol.kind,
        symbol.line_start <= usize::MAX,
        symbol.line_end <= usize::MAX,
        symbol_values(symbol) is Ok,
    ensures
        answer_of(query, seq![seq![SqlValueView::Integer(id)] + symbol_values(symbol).unwrap()])
            == Ok::<Seq<SymbolView>, QueryError>(seq![SymbolView { id: Some(id), ..symbol }]),
{
    symbol_round_trip(symbol, id);
    let row = seq![SqlValueView::Integer(id)] + symbol_values(symbol).unwrap();
    let rows = seq![row];
    let read = SymbolView { id: Some(id), ..symbol };
    assert(symbols_of_rows(rows, 1) == Ok::<Seq<SymbolView>, StoreError>(Seq::empty()));
    assert(symbols_of_rows(rows, 0) == Ok::<Seq<SymbolView>, StoreError>(
        seq![read] + Seq::<SymbolView>::empty(),
    ));
    assert(seq![read] + Seq::<SymbolView>::empty() =~= seq![read]);
    assert(query.selects(read));
}

/// Where the rows that answer a query hold the row of a written symbol, the
/// answer holds that symbol, with the id of the row, at the place of the row.
pub proof fn written_symbol_is_in_the_answer(
    query: SymbolQuery,
    rows: Seq<Seq<SqlValueView>>,
    k: int,
    symbol: SymbolView,
    id: i64,
)
    requires
        0 <= k < rows.len(),
        symbol.line_start <= usize::MAX,
        symbol.line_end <= usize::MAX,
        symbol_values(symbol) is Ok,
        rows[k] == seq![SqlValueView::Integer(id)] + symbol_values(symbol).unwrap(),
        answer_of(query, rows) is Ok,
    ensures
        answer_of(query, rows).unwrap().len() == rows.len(),
        answer_of(query, rows).unwrap()[k] == (SymbolView { id: Some(id), ..symbol }),
{
    symbol_round_trip(symbol, id);
    lemma_symbols_of_rows(rows, 0);
}

/// What a query that asks for symbols by first line returns is in the order
/// of the first lines.
pub proof fn ordered_answers_are_sorted(query: SymbolQuery, rows: Seq<Seq<SqlValueView>>)
    requires
        query.ordered(),
        answer_of(query, rows) is Ok,
    ensures
        sorted_by_line(answer_of(query, rows).unwrap()),
{
}

} // verus!
