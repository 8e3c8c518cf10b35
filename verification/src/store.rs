//! The symbol store as seen from the library: its schema, the statements
//! that write to it with the values they bind, and how its rows are read.
//! Running a statement is left to the caller.

use vstd::prelude::*;
use crate::symbol::{
    kind_name_round_trip, kind_of_name, parse_symbol_kind, FileMetadata, FileMetadataView, Symbol,
    SymbolView,
};
use crate::text::opt_view;

verus! {

/// A value bound to a statement or read from a row.
#[derive(Debug, Clone, PartialEq, Eq)]
pub enum SqlValue {
    Null,
    Integer(i64),
    Text(String),
    /// A value of a type that the store's tables do not hold.
    Other,
}

/// What a `SqlValue` holds, as a mathematical value.
pub enum SqlValueView {
    Null,
    Integer(i64),
    Text(Seq<char>),
    Other,
}

impl View for SqlValue {
    type V = SqlValueView;

    open spec fn view(&self) -> SqlValueView {
        match self {
            SqlValue::Null => SqlValueView::Null,
            SqlValue::Integer(i) => SqlValueView::Integer(*i),
            SqlValue::Text(s) => SqlValueView::Text(s@),
            SqlValue::Other => SqlValueView::Other,
        }
    }
}

/// The views of a sequence of values, in order.
pub open spec fn values_view(values: Seq<SqlValue>) -> Seq<SqlValueView> {
    Seq::new(values.len(), |i: int| values[i]@)
}

/// Why a record cannot be written or a row cannot be read.
#[derive(Debug, Clone, Copy, PartialEq, Eq, Structural)]
pub enum StoreError {
    /// The row has fewer columns than the record has fields.
    MissingColumn,
    /// A column holds a value of another type than the field.
    InvalidType,
    /// A number does not fit the column or the field.
    OutOfRange,
}

/// One setting applied when the store is opened.
#[derive(Debug, Clone)]
pub struct Pragma {
    pub name: String,
    pub value: SqlValue,
}

/// The settings applied when the store is opened, in order: write-ahead
/// logging, a page cache of about 100 MiB, 256 MiB of memory-mapped reads,
/// `NORMAL` durability, temporary tables in memory, incremental auto-vacuum,
/// pages of 4096 bytes, a checkpoint every 10000 pages, and normal locking.
pub open spec fn schema_settings() -> Seq<(Seq<char>, SqlValueView)> {
    seq![
        ("journal_mode"@, SqlValueView::Text("WAL"@)),
        ("cache_size"@, SqlValueView::Integer(-102400i64)),
        ("mmap_size"@, SqlValueView::Integer(268435456)),
        ("synchronous"@, SqlValueView::Text("NORMAL"@)),
        ("temp_store"@, SqlValueView::Text("MEMORY"@)),
        ("auto_vacuum"@, SqlValueView::Text("INCREMENTAL"@)),
        ("page_size"@, SqlValueView::Integer(4096)),
        ("wal_autocheckpoint"@, SqlValueView::Integer(10000)),
        ("locking_mode"@, SqlValueView::Text("NORMAL"@)),
    ]
}

/// The views of a sequence of settings, in order.
pub open spec fn pragmas_view(pragmas: Seq<Pragma>) -> Seq<(Seq<char>, SqlValueView)> {
    Seq::new(pragmas.len(), |i: int| (pragmas[i].name@, pragmas[i].value@))
}

/// A setting with a textual value.
fn text_pragma(name: &str, value: &str) -> (r: Pragma)
    ensures
        r.name@ == name@,
        r.value@ == SqlValueView::Text(value@),
{
    Pragma { name: name.to_owned(), value: SqlValue::Text(value.to_owned()) }
}

/// A setting with a numeric value.
fn number_pragma(name: &str, value: i64) -> (r: Pragma)
    ensures
        r.name@ == name@,
        r.value@ == SqlValueView::Integer(value),
{
    Pragma { name: name.to_owned(), value: SqlValue::Integer(value) }
}

/// The settings to apply, in this order, before the tables are created.
pub fn schema_pragmas() -> (r: Vec<Pragma>)
    ensures
        pragmas_view(r@) == schema_settings(),
{
    let mut pragmas: Vec<Pragma> = Vec::new();
    pragmas.push(text_pragma("journal_mode", "WAL"));
    pragmas.push(number_pragma("cache_size", -102400));
    pragmas.push(number_pragma("mmap_size", 268435456));
    pragmas.push(text_pragma("synchronous", "NORMAL"));
    pragmas.push(text_pragma("temp_store", "MEMORY"));
    pragmas.push(text_pragma("auto_vacuum", "INCREMENTAL"));
    pragmas.push(number_pragma("page_size", 4096));
    pragmas.push(number_pragma("wal_autocheckpoint", 10000));
    pragmas.push(text_pragma("locking_mode", "NORMAL"));
    pragmas
}

/// Creates the three tables and their indexes, each only if it is not there.
pub const SCHEMA_SQL: &'static str = "
        CREATE TABLE IF NOT EXISTS files (
            id INTEGER PRIMARY KEY AUTOINCREMENT,
            path TEXT UNIQUE NOT NULL,
            language TEXT NOT NULL,
            size INTEGER NOT NULL,
            last_indexed TIMESTAMP DEFAULT CURRENT_TIMESTAMP,
            parse_errors INTEGER DEFAULT 0
        );

        CREATE TABLE IF NOT EXISTS symbols (
            id INTEGER PRIMARY KEY AUTOINCREMENT,
            file_id INTEGER NOT NULL REFERENCES files(id) ON DELETE CASCADE,
            name TEXT NOT NULL,
            kind TEXT NOT NULL,
            line_start INTEGER NOT NULL,
            line_end INTEGER NOT NULL,
            scope TEXT,
            metadata TEXT,
            UNIQUE(file_id, name, line_start)
        );

        CREATE TABLE IF NOT EXISTS dependencies (
            id INTEGER PRIMARY KEY AUTOINCREMENT,
            file_id INTEGER NOT NULL REFERENCES files(id) ON DELETE CASCADE,
            import_path TEXT NOT NULL,
            imported_symbols TEXT,
            line_number INTEGER
        );

        CREATE INDEX IF NOT EXISTS idx_symbols_name ON symbols(name);
        CREATE INDEX IF NOT EXISTS idx_symbols_kind ON symbols(kind);
        CREATE INDEX IF NOT EXISTS idx_symbols_file_id ON symbols(file_id);
        CREATE INDEX IF NOT EXISTS idx_files_path ON files(path);
        CREATE INDEX IF NOT EXISTS idx_files_language ON files(language);

        CREATE INDEX IF NOT EXISTS idx_symbols_file_kind ON symbols(file_id, kind);
        CREATE INDEX IF NOT EXISTS idx_symbols_name_kind ON symbols(name, kind);
        CREATE INDEX IF NOT EXISTS idx_symbols_file_line ON symbols(file_id, line_start);

        CREATE INDEX IF NOT EXISTS idx_dependencies_file_id ON dependencies(file_id);
        CREATE INDEX IF NOT EXISTS idx_dependencies_import_path ON dependencies(import_path);
        ";

/// Inserts a file or, where its path is stored already, overwrites the
/// language, size and error count and sets the time of indexing to now.
/// Binds the path, the language, the size and the error count.
pub const UPSERT_FILE_SQL: &'static str = "
        INSERT INTO files (path, language, size, last_indexed, parse_errors)
        VALUES (?1, ?2, ?3, CURRENT_TIMESTAMP, ?4)
        ON CONFLICT(path) DO UPDATE SET
            language = excluded.language,
            size = excluded.size,
            last_indexed = CURRENT_TIMESTAMP,
            parse_errors = excluded.parse_errors
        ";

/// Inserts a symbol or, where one of its file, name and first line is stored
/// already, overwrites the kind, last line, scope and metadata. Binds the
/// file, name, kind, first line, last line, scope and metadata.
pub const INSERT_SYMBOL_SQL: &'static str = "
        INSERT INTO symbols (file_id, name, kind, line_start, line_end, scope, metadata)
        VALUES (?1, ?2, ?3, ?4, ?5, ?6, ?7)
        ON CONFLICT(file_id, name, line_start) DO UPDATE SET
            kind = excluded.kind,
            line_end = excluded.line_end,
            scope = excluded.scope,
            metadata = excluded.metadata
        ";

/// Removes the symbols of the file that is bound.
pub const DELETE_FILE_SYMBOLS_SQL: &'static str = "DELETE FROM symbols WHERE file_id = ?1";

/// Selects the file whose path is bound.
pub const GET_FILE_BY_PATH_SQL: &'static str =
    "SELECT id, path, language, size, last_indexed, parse_errors FROM files WHERE path = ?1";

/// The value that stands for an optional text.
pub open spec fn optional_text(text: Option<Seq<char>>) -> SqlValueView {
    match text {
        Some(t) => SqlValueView::Text(t),
        None => SqlValueView::Null,
    }
}

/// The values that the file statement binds for a file, in order; none
/// where the size is more than the store can hold.
pub open spec fn file_values(file: FileMetadataView) -> Result<Seq<SqlValueView>, StoreError> {
    if file.size <= i64::MAX {
        Ok(
            seq![
                SqlValueView::Text(file.path),
                SqlValueView::Text(file.language),
                SqlValueView::Integer(file.size as i64),
                SqlValueView::Integer(file.parse_errors as i64),
            ],
        )
    } else {
        Err(StoreError::OutOfRange)
    }
}

/// The values that the symbol statement binds for a symbol, in order; none
/// where a line number is more than the store can hold.
pub open spec fn symbol_values(symbol: SymbolView) -> Result<Seq<SqlValueView>, StoreError> {
    if symbol.line_start <= i64::MAX && symbol.line_end <= i64::MAX {
        Ok(
            seq![
                SqlValueView::Integer(symbol.file_id),
                SqlValueView::Text(symbol.name),
                SqlValueView::Text(symbol.kind.name()),
                SqlValueView::Integer(symbol.line_start as i64),
                SqlValueView::Integer(symbol.line_end as i64),
                optional_text(symbol.scope),
                optional_text(symbol.metadata),
            ],
        )
    } else {
        Err(StoreError::OutOfRange)
    }
}

/// The view of a result that holds bound values.
pub open spec fn values_result_view(r: Result<Vec<SqlValue>, StoreError>) -> Result<
    Seq<SqlValueView>,
    StoreError,
> {
    match r {
        Ok(values) => Ok(values_view(values@)),
        Err(e) => Err(e),
    }
}

/// The value that stands for an optional text.
pub fn optional_text_value(text: &Option<String>) -> (r: SqlValue)
    ensures
        r@ == optional_text(opt_view(*text)),
{
    match text {
        Some(t) => SqlValue::Text(t.clone()),
        None => SqlValue::Null,
    }
}

/// The values to bind to `UPSERT_FILE_SQL` for a file.
pub fn upsert_file_params(file: &FileMetadata) -> (r: Result<Vec<SqlValue>, StoreError>)
    ensures
        values_result_view(r) == file_values(file@),
{
    if file.size > 0x7fff_ffff_ffff_ffff {
        return Err(StoreError::OutOfRange);
    }
    let mut values: Vec<SqlValue> = Vec::new();
    values.push(SqlValue::Text(file.path.clone()));
    values.push(SqlValue::Text(file.language.clone()));
    values.push(SqlValue::Integer(file.size as i64));
    values.push(SqlValue::Integer(file.parse_errors as i64));
    assert(values_view(values@) =~= file_values(file@).unwrap());
    Ok(values)
}

/// The values to bind to `INSERT_SYMBOL_SQL` for a symbol.
pub fn insert_symbol_params(symbol: &Symbol) -> (r: Result<Vec<SqlValue>, StoreError>)
    ensures
        values_result_view(r) == symbol_values(symbol@),
{
    if symbol.line_start as u64 > 0x7fff_ffff_ffff_ffff || symbol.line_end as u64
        > 0x7fff_ffff_ffff_ffff {
        return Err(StoreError::OutOfRange);
    }
    let mut values: Vec<SqlValue> = Vec::new();
    values.push(SqlValue::Integer(symbol.file_id));
    values.push(SqlValue::Text(symbol.name.clone()));
    values.push(SqlValue::Text(symbol.kind.to_string()));
    values.push(SqlValue::Integer(symbol.line_start as i64));
    values.push(SqlValue::Integer(symbol.line_end as i64));
    values.push(optional_text_value(&symbol.scope));
    values.push(optional_text_value(&symbol.metadata));
    assert(values_view(values@) =~= symbol_values(symbol@).unwrap());
    Ok(values)
}

/// The value to bind to `DELETE_FILE_SYMBOLS_SQL` for a file.
pub fn delete_file_symbols_params(file_id: i64) -> (r: Vec<SqlValue>)
    ensures
        values_view(r@) == seq![SqlValueView::Integer(file_id)],
{
    let mut values: Vec<SqlValue> = Vec::new();
    values.push(SqlValue::Integer(file_id));
    values
}

/// The value to bind to `GET_FILE_BY_PATH_SQL` for a path.
pub fn get_file_by_path_params(path: &str) -> (r: Vec<SqlValue>)
    ensures
        values_view(r@) == seq![SqlValueView::Text(path@)],
{
    let mut values: Vec<SqlValue> = Vec::new();
    values.push(SqlValue::Text(path.to_owned()));
    values
}

/// The integer in the column `index` of a row.
pub open spec fn integer_at(row: Seq<SqlValueView>, index: int) -> Result<i64, StoreError> {
    if 0 <= index < row.len() {
        match row[index] {
            SqlValueView::Integer(i) => Ok(i),
            _ => Err(StoreError::InvalidType),
        }
    } else {
        Err(StoreError::MissingColumn)
    }
}

/// The text in the column `index` of a row.
pub open spec fn text_at_column(row: Seq<SqlValueView>, index: int) -> Result<
    Seq<char>,
    StoreError,
> {
    if 0 <= index < row.len() {
        match row[index] {
            SqlValueView::Text(t) => Ok(t),
            _ => Err(StoreError::InvalidType),
        }
    } else {
        Err(StoreError::MissingColumn)
    }
}

/// The text in the column `index` of a row, or nothing where the column is
/// null.
pub open spec fn optional_text_at(row: Seq<SqlValueView>, index: int) -> Result<
    Option<Seq<char>>,
    StoreError,
> {
    if 0 <= index < row.len() {
        match row[index] {
            SqlValueView::Text(t) => Ok(Some(t)),
            SqlValueView::Null => Ok(None),
            _ => Err(StoreError::InvalidType),
        }
    } else {
        Err(StoreError::MissingColumn)
    }
}

/// The number in the column `index` of a row, which must lie between `low`
/// and `high`.
pub open spec fn bounded_at(row: Seq<SqlValueView>, index: int, low: int, high: int) -> Result<
    int,
    StoreError,
> {
    match integer_at(row, index) {
        Ok(i) => if low <= i <= high {
            Ok(i as int)
        } else {
            Err(StoreError::OutOfRange)
        },
        Err(e) => Err(e),
    }
}

/// Reads the integer in the column `index`.
pub fn get_integer(row: &Vec<SqlValue>, index: usize) -> (r: Result<i64, StoreError>)
    ensures
        r == integer_at(values_view(row@), index as int),
{
    if index >= row.len() {
        return Err(StoreError::MissingColumn);
    }
    match &row[index] {
        SqlValue::Integer(i) => Ok(*i),
        _ => Err(StoreError::InvalidType),
    }
}

/// The view of a result that holds a text.
pub open spec fn text_result_view(r: Result<String, StoreError>) -> Result<Seq<char>, StoreError> {
    match r {
        Ok(t) => Ok(t@),
        Err(e) => Err(e),
    }
}

/// The view of a result that holds an optional text.
pub open spec fn optional_text_result_view(r: Result<Option<String>, StoreError>) -> Result<
    Option<Seq<char>>,
    StoreError,
> {
    match r {
        Ok(t) => Ok(opt_view(t)),
        Err(e) => Err(e),
    }
}

/// Reads the text in the column `index`.
pub fn get_text(row: &Vec<SqlValue>, index: usize) -> (r: Result<String, StoreError>)
    ensures
        text_result_view(r) == text_at_column(values_view(row@), index as int),
{
    if index >= row.len() {
        return Err(StoreError::MissingColumn);
    }
    match &row[index] {
        SqlValue::Text(t) => Ok(t.clone()),
        _ => Err(StoreError::InvalidType),
    }
}

/// Reads the text in the column `index`, which may be null.
pub fn get_optional_text(row: &Vec<SqlValue>, index: usize) -> (r: Result<
    Option<String>,
    StoreError,
>)
    ensures
        optional_text_result_view(r) == optional_text_at(values_view(row@), index as int),
{
    if index >= row.len() {
        return Err(StoreError::MissingColumn);
    }
    match &row[index] {
        SqlValue::Text(t) => Ok(Some(t.clone())),
        SqlValue::Null => Ok(None),
        _ => Err(StoreError::InvalidType),
    }
}

/// Reads the line number in the column `index`.
pub fn get_line(row: &Vec<SqlValue>, index: usize) -> (r: Result<usize, StoreError>)
    ensures
        match r {
            Ok(n) => bounded_at(values_view(row@), index as int, 0, usize::MAX as int) == Ok::<
                int,
                StoreError,
            >(n as int),
            Err(e) => bounded_at(values_view(row@), index as int, 0, usize::MAX as int) == Err::<
                int,
                StoreError,
            >(e),
        },
{
    let i = get_integer(row, index)?;
    if i < 0 {
        return Err(StoreError::OutOfRange);
    }
    let u = i as u64;
    if u > usize::MAX as u64 {
        return Err(StoreError::OutOfRange);
    }
    Ok(u as usize)
}

/// Reads the size in the column `index`.
pub fn get_size(row: &Vec<SqlValue>, index: usize) -> (r: Result<u64, StoreError>)
    ensures
        match r {
            Ok(n) => bounded_at(values_view(row@), index as int, 0, i64::MAX as int) == Ok::<
                int,
                StoreError,
            >(n as int),
            Err(e) => bounded_at(values_view(row@), index as int, 0, i64::MAX as int) == Err::<
                int,
                StoreError,
            >(e),
        },
{
    let i = get_integer(row, index)?;
    if i < 0 {
        return Err(StoreError::OutOfRange);
    }
    Ok(i as u64)
}

/// Reads the error count in the column `index`.
pub fn get_count(row: &Vec<SqlValue>, index: usize) -> (r: Result<i32, StoreError>)
    ensures
        match r {
            Ok(n) => bounded_at(values_view(row@), index as int, i32::MIN as int, i32::MAX as int)
                == Ok::<int, StoreError>(n as int),
            Err(e) => bounded_at(values_view(row@), index as int, i32::MIN as int, i32::MAX as int)
                == Err::<int, StoreError>(e),
        },
{
    let i = get_integer(row, index)?;
    if i < -2147483648 || i > 2147483647 {
        return Err(StoreError::OutOfRange);
    }
    Ok(i as i32)
}

/// The symbol that a row of the symbols table stands for. The columns are,
/// in order: id, file, name, kind, first line, last line, scope, metadata.
/// The first column that cannot be read decides the error.
pub open spec fn symbol_of_row(row: Seq<SqlValueView>) -> Result<SymbolView, StoreError> {
    match integer_at(row, 0) {
        Err(e) => Err(e),
        Ok(id) => match integer_at(row, 1) {
            Err(e) => Err(e),
            Ok(file_id) => match text_at_column(row, 2) {
                Err(e) => Err(e),
                Ok(name) => match text_at_column(row, 3) {
                    Err(e) => Err(e),
                    Ok(kind) => match bounded_at(row, 4, 0, usize::MAX as int) {
                        Err(e) => Err(e),
                        Ok(line_start) => match bounded_at(row, 5, 0, usize::MAX as int) {
                            Err(e) => Err(e),
                            Ok(line_end) => match optional_text_at(row, 6) {
                                Err(e) => Err(e),
                                Ok(scope) => match optional_text_at(row, 7) {
                                    Err(e) => Err(e),
                                    Ok(metadata) => Ok(
                                        SymbolView {
                                            id: Some(id),
                                            file_id,
                                            name,
                                            kind: kind_of_name(kind),
                                            line_start: line_start as nat,
                                            line_end: line_end as nat,
                                            scope,
                                            metadata,
                                        },
                                    ),
                                },
                            },
                        },
                    },
                },
            },
        },
    }
}

/// The view of a result that holds a symbol.
pub open spec fn symbol_result_view(r: Result<Symbol, StoreError>) -> Result<
    SymbolView,
    StoreError,
> {
    match r {
        Ok(s) => Ok(s@),
        Err(e) => Err(e),
    }
}

/// Reads a symbol from a row of the symbols table.
pub fn symbol_from_row(row: &Vec<SqlValue>) -> (r: Result<Symbol, StoreError>)
    ensures
        symbol_result_view(r) == symbol_of_row(values_view(row@)),
{
    let id = get_integer(row, 0)?;
    let file_id = get_integer(row, 1)?;
    let name = get_text(row, 2)?;
    let kind = get_text(row, 3)?;
    let line_start = get_line(row, 4)?;
    let line_end = get_line(row, 5)?;
    let scope = get_optional_text(row, 6)?;
    let metadata = get_optional_text(row, 7)?;
    Ok(
        Symbol {
            id: Some(id),
            file_id,
            name,
            kind: parse_symbol_kind(kind.as_str()),
            line_start,
            line_end,
            scope,
            metadata,
        },
    )
}

/// The file that a row of the files table stands for. The columns are, in
/// order: id, path, language, size, time of indexing, error count.
pub open spec fn file_of_row(row: Seq<SqlValueView>) -> Result<FileMetadataView, StoreError> {
    match integer_at(row, 0) {
        Err(e) => Err(e),
        Ok(id) => match text_at_column(row, 1) {
            Err(e) => Err(e),
            Ok(path) => match text_at_column(row, 2) {
                Err(e) => Err(e),
                Ok(language) => match bounded_at(row, 3, 0, i64::MAX as int) {
                    Err(e) => Err(e),
                    Ok(size) => match optional_text_at(row, 4) {
                        Err(e) => Err(e),
                        Ok(last_indexed) => match bounded_at(
                            row,
                            5,
                            i32::MIN as int,
                            i32::MAX as int,
                        ) {
                            Err(e) => Err(e),
                            Ok(parse_errors) => Ok(
                                FileMetadataView {
                                    id: Some(id),
                                    path,
                                    language,
                                    size: size as u64,
                                    last_indexed,
                                    parse_errors: parse_errors as i32,
                                },
                            ),
                        },
                    },
                },
            },
        },
    }
}

/// The view of a result that holds a file.
pub open spec fn file_result_view(r: Result<FileMetadata, StoreError>) -> Result<
    FileMetadataView,
    StoreError,
> {
    match r {
        Ok(f) => Ok(f@),
        Err(e) => Err(e),
    }
}

/// Reads a file from a row of the files table.
pub fn file_from_row(row: &Vec<SqlValue>) -> (r: Result<FileMetadata, StoreError>)
    ensures
        file_result_view(r) == file_of_row(values_view(row@)),
{
    let id = get_integer(row, 0)?;
    let path = get_text(row, 1)?;
    let language = get_text(row, 2)?;
    let size = get_size(row, 3)?;
    let last_indexed = get_optional_text(row, 4)?;
    let parse_errors = get_count(row, 5)?;
    Ok(FileMetadata { id: Some(id), path, language, size, last_indexed, parse_errors })
}

/// Storing a file binds its path, language, size and error count and nothing
/// else: two records that agree in these bind the same values, whatever
/// their ids and times of indexing.
pub proof fn upsert_binds_the_attributes(first: FileMetadataView, second: FileMetadataView)
    requires
        first.path == second.path,
        first.language == second.language,
        first.size == second.size,
        first.parse_errors == second.parse_errors,
    ensures
        file_values(first) == file_values(second),
{
}

/// A symbol that is written and read back is the same symbol, with the id
/// that the store gave it: the row that holds the id and then the values
/// bound for the symbol stands for that symbol.
pub proof fn symbol_round_trip(symbol: SymbolView, id: i64)
    requires
        symbol.line_start <= usize::MAX,
        symbol.line_end <= usize::MAX,
        symbol_values(symbol) is Ok,
    ensures
        symbol_of_row(seq![SqlValueView::Integer(id)] + symbol_values(symbol).unwrap()) == Ok::<
            SymbolView,
            StoreError,
        >(SymbolView { id: Some(id), ..symbol }),
{
    kind_name_round_trip(symbol.kind);
    let row = seq![SqlValueView::Integer(id)] + symbol_values(symbol).unwrap();
    assert(row.len() == 8);
}

} // verus!
