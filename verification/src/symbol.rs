//! The records of the index: symbols, their kinds, and file metadata.

use vstd::prelude::*;
use crate::text::{ascii_lower, ascii_lowercase, chars_are, lowercase_chars, opt_view};

verus! {

/// The closed set of kinds a symbol can have.
#[derive(Debug, Clone, Copy, PartialEq, Eq, Structural)]
pub enum SymbolKind {
    Function,
    Class,
    Variable,
    Import,
    Export,
    Module,
    Struct,
    Enum,
    Trait,
    Interface,
    Type,
}

impl SymbolKind {
    /// The lower-case name under which a kind is stored and shown.
    pub open spec fn name(self) -> Seq<char> {
        match self {
            SymbolKind::Function => "function"@,
            SymbolKind::Class => "class"@,
            SymbolKind::Variable => "variable"@,
            SymbolKind::Import => "import"@,
            SymbolKind::Export => "export"@,
            SymbolKind::Module => "module"@,
            SymbolKind::Struct => "struct"@,
            SymbolKind::Enum => "enum"@,
            SymbolKind::Trait => "trait"@,
            SymbolKind::Interface => "interface"@,
            SymbolKind::Type => "type"@,
        }
    }

    /// The kind's name as text.
    pub fn as_str(&self) -> (r: &'static str)
        ensures
            r@ == self.name(),
    {
        match self {
            SymbolKind::Function => "function",
            SymbolKind::Class => "class",
            SymbolKind::Variable => "variable",
            SymbolKind::Import => "import",
            SymbolKind::Export => "export",
            SymbolKind::Module => "module",
            SymbolKind::Struct => "struct",
            SymbolKind::Enum => "enum",
            SymbolKind::Trait => "trait",
            SymbolKind::Interface => "interface",
            SymbolKind::Type => "type",
        }
    }

    /// The kind's name as an owned string.
    pub fn to_string(&self) -> (r: String)
        ensures
            r@ == self.name(),
    {
        self.as_str().to_owned()
    }
}

/// The kind that a stored name stands for: the name is matched without regard
/// to the case of ASCII letters, and a name that is none of the eleven stands
/// for `Variable`.
pub open spec fn kind_of_name(s: Seq<char>) -> SymbolKind {
    let l = ascii_lowercase(s);
    if l == "function"@ {
        SymbolKind::Function
    } else if l == "class"@ {
        SymbolKind::Class
    } else if l == "variable"@ {
        SymbolKind::Variable
    } else if l == "import"@ {
        SymbolKind::Import
    } else if l == "export"@ {
        SymbolKind::Export
    } else if l == "module"@ {
        SymbolKind::Module
    } else if l == "struct"@ {
        SymbolKind::Struct
    } else if l == "enum"@ {
        SymbolKind::Enum
    } else if l == "trait"@ {
        SymbolKind::Trait
    } else if l == "interface"@ {
        SymbolKind::Interface
    } else if l == "type"@ {
        SymbolKind::Type
    } else {
        SymbolKind::Variable
    }
}

/// Reads a kind from its stored name.
pub fn parse_symbol_kind(s: &str) -> (r: SymbolKind)
    ensures
        r == kind_of_name(s@),
{
    let l = lowercase_chars(s);
    if chars_are(&l, "function") {
        SymbolKind::Function
    } else if chars_are(&l, "class") {
        SymbolKind::Class
    } else if chars_are(&l, "variable") {
        SymbolKind::Variable
    } else if chars_are(&l, "import") {
        SymbolKind::Import
    } else if chars_are(&l, "export") {
        SymbolKind::Export
    } else if chars_are(&l, "module") {
        SymbolKind::Module
    } else if chars_are(&l, "struct") {
        SymbolKind::Struct
    } else if chars_are(&l, "enum") {
        SymbolKind::Enum
    } else if chars_are(&l, "trait") {
        SymbolKind::Trait
    } else if chars_are(&l, "interface") {
        SymbolKind::Interface
    } else if chars_are(&l, "type") {
        SymbolKind::Type
    } else {
        SymbolKind::Variable
    }
}

/// Every kind is read back from its own name.
pub proof fn kind_name_round_trip(kind: SymbolKind)
    ensures
        kind_of_name(kind.name()) == kind,
{
    reveal_strlit("function");
    reveal_strlit("class");
    reveal_strlit("variable");
    reveal_strlit("import");
    reveal_strlit("export");
    reveal_strlit("module");
    reveal_strlit("struct");
    reveal_strlit("enum");
    reveal_strlit("trait");
    reveal_strlit("interface");
    reveal_strlit("type");
    let name = kind.name();
    assert forall|i: int| 0 <= i < name.len() implies ascii_lower(name[i]) == name[i] by {}
    assert(ascii_lowercase(name) =~= name);
    match kind {
        SymbolKind::Function => {},
        SymbolKind::Class => {},
        SymbolKind::Variable => {
            assert("variable"@[0] != "function"@[0]);
        },
        SymbolKind::Import => {},
        SymbolKind::Export => {
            assert("export"@[0] != "import"@[0]);
        },
        SymbolKind::Module => {
            assert("module"@[0] != "import"@[0]);
            assert("module"@[0] != "export"@[0]);
        },
        SymbolKind::Struct => {
            assert("struct"@[0] != "import"@[0]);
            assert("struct"@[0] != "export"@[0]);
            assert("struct"@[0] != "module"@[0]);
        },
        SymbolKind::Enum => {},
        SymbolKind::Trait => {
            assert("trait"@[0] != "class"@[0]);
        },
        SymbolKind::Interface => {},
        SymbolKind::Type => {
            assert("type"@[0] != "enum"@[0]);
        },
    }
}

/// A named declaration found in a source file.
#[derive(Debug, Clone, PartialEq, Eq)]
pub struct Symbol {
    /// Identifier given by the store; `None` before the symbol is stored.
    pub id: Option<i64>,
    /// The file the symbol belongs to.
    pub file_id: i64,
    pub name: String,
    pub kind: SymbolKind,
    /// First line of the declaration, counted from 0.
    pub line_start: usize,
    /// Last line the declaration touches, counted from 0.
    pub line_end: usize,
    /// Name of the enclosing declaration, if any.
    pub scope: Option<String>,
    /// Free-form, language-specific data.
    pub metadata: Option<String>,
}

/// What a `Symbol` holds, as mathematical values.
pub struct SymbolView {
    pub id: Option<i64>,
    pub file_id: i64,
    pub name: Seq<char>,
    pub kind: SymbolKind,
    pub line_start: nat,
    pub line_end: nat,
    pub scope: Option<Seq<char>>,
    pub metadata: Option<Seq<char>>,
}

impl View for Symbol {
    type V = SymbolView;

    open spec fn view(&self) -> SymbolView {
        SymbolView {
            id: self.id,
            file_id: self.file_id,
            name: self.name@,
            kind: self.kind,
            line_start: self.line_start as nat,
            line_end: self.line_end as nat,
            scope: opt_view(self.scope),
            metadata: opt_view(self.metadata),
        }
    }
}

impl SymbolView {
    /// The first line is not after the last.
    pub open spec fn lines_ordered(self) -> bool {
        self.line_start <= self.line_end
    }
}

/// The views of a sequence of symbols, in order.
pub open spec fn symbol_views(symbols: Seq<Symbol>) -> Seq<SymbolView> {
    Seq::new(symbols.len(), |i: int| symbols[i]@)
}

/// Housekeeping data of one indexed file.
#[derive(Debug, Clone)]
pub struct FileMetadata {
    /// Identifier given by the store; `None` before the file is stored.
    pub id: Option<i64>,
    pub path: String,
    pub language: String,
    pub size: u64,
    /// When the store last wrote the row.
    pub last_indexed: Option<String>,
    pub parse_errors: i32,
}

/// What a `FileMetadata` holds, as mathematical values.
pub struct FileMetadataView {
    pub id: Option<i64>,
    pub path: Seq<char>,
    pub language: Seq<char>,
    pub size: u64,
    pub last_indexed: Option<Seq<char>>,
    pub parse_errors: i32,
}

impl View for FileMetadata {
    type V = FileMetadataView;

    open spec fn view(&self) -> FileMetadataView {
        FileMetadataView {
            id: self.id,
            path: self.path@,
            language: self.language@,
            size: self.size,
            last_indexed: opt_view(self.last_indexed),
            parse_errors: self.parse_errors,
        }
    }
}

/// The views of a sequence of file records, in order.
pub open spec fn file_views(files: Seq<FileMetadata>) -> Seq<FileMetadataView> {
    Seq::new(files.len(), |i: int| files[i]@)
}

} // verus!
