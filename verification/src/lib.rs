//! A multi-language source-code symbol indexer.
//!
//! The library detects the language of a file (`language`), parses sources
//! with tree-sitter (`parser`) and extracts their symbols (`python`,
//! `typescript`, `rust`, over the trees of `syntax`). It decides which files
//! a walk of a directory tree finds (`discovery`), what is recorded for each
//! (`indexer`, `pipeline`) and which files changed (`incremental`). For the
//! symbol store it holds the schema and the statements with the values they
//! bind (`store`), and reads and checks the rows that queries give (`query`).
//! Reading directories and files and running statements is left to the
//! caller. `capability` says what a build can do, and `deep` keeps the audit
//! trail of Deep Mode.

pub mod capability;
pub mod deep;
pub mod discovery;
pub mod extract;
pub mod incremental;
pub mod indexer;
pub mod language;
pub mod parser;
pub mod path;
pub mod pipeline;
pub mod python;
pub mod query;
pub mod rust;
pub mod store;
pub mod symbol;
pub mod syntax;
pub mod text;
pub mod typescript;

pub use language::detect_language;
pub use symbol::{parse_symbol_kind, FileMetadata, Symbol, SymbolKind};
