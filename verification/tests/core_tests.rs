use analyzer_core::deep::{is_deep_mode_available, AuditEvent, DeepMode};
use analyzer_core::{detect_language, FileMetadata, Symbol, SymbolKind};

#[test]
fn test_detect_language() {
    assert_eq!(detect_language("test.py"), Some("python"));
    assert_eq!(detect_language("test.ts"), Some("typescript"));
    assert_eq!(detect_language("test.js"), Some("javascript"));
    assert_eq!(detect_language("test.rs"), Some("rust"));
    assert_eq!(detect_language("test.txt"), None);
}

#[test]
fn test_detect_language_with_pyi() {
    assert_eq!(detect_language("stubs.pyi"), Some("python"));
}

#[test]
fn test_detect_language_with_tsx() {
    assert_eq!(detect_language("component.tsx"), Some("typescript"));
}

#[test]
fn test_detect_language_with_jsx() {
    assert_eq!(detect_language("component.jsx"), Some("javascript"));
}

#[test]
fn test_detect_language_no_extension() {
    assert_eq!(detect_language("Makefile"), None);
}

#[test]
fn test_detect_language_with_path() {
    assert_eq!(detect_language("/path/to/file.py"), Some("python"));
    assert_eq!(detect_language("../relative/path.rs"), Some("rust"));
}

#[test]
fn test_symbol_kind_display() {
    assert_eq!(SymbolKind::Function.to_string(), "function");
    assert_eq!(SymbolKind::Class.to_string(), "class");
    assert_eq!(SymbolKind::Variable.to_string(), "variable");
    assert_eq!(SymbolKind::Import.to_string(), "import");
    assert_eq!(SymbolKind::Export.to_string(), "export");
    assert_eq!(SymbolKind::Module.to_string(), "module");
    assert_eq!(SymbolKind::Struct.to_string(), "struct");
    assert_eq!(SymbolKind::Enum.to_string(), "enum");
    assert_eq!(SymbolKind::Trait.to_string(), "trait");
    assert_eq!(SymbolKind::Interface.to_string(), "interface");
    assert_eq!(SymbolKind::Type.to_string(), "type");
}

#[test]
fn test_symbol_creation() {
    let symbol = Symbol {
        id: Some(1),
        file_id: 42,
        name: "test_function".to_string(),
        kind: SymbolKind::Function,
        line_start: 10,
        line_end: 20,
        scope: Some("module".to_string()),
        metadata: Some(r#"{"returns": "str"}"#.to_string()),
    };

    assert_eq!(symbol.name, "test_function");
    assert_eq!(symbol.kind, SymbolKind::Function);
    assert_eq!(symbol.line_start, 10);
    assert_eq!(symbol.line_end, 20);
}

#[test]
fn test_symbol_clone() {
    let symbol = Symbol {
        id: Some(1),
        file_id: 1,
        name: "original".to_string(),
        kind: SymbolKind::Class,
        line_start: 0,
        line_end: 10,
        scope: None,
        metadata: None,
    };

    let cloned = symbol.clone();
    assert_eq!(symbol, cloned);
}

#[test]
fn test_file_metadata_creation() {
    let metadata = FileMetadata {
        id: Some(1),
        path: "/path/to/file.py".to_string(),
        language: "python".to_string(),
        size: 1024,
        last_indexed: Some("2024-01-01T00:00:00Z".to_string()),
        parse_errors: 0,
    };

    assert_eq!(metadata.path, "/path/to/file.py");
    assert_eq!(metadata.language, "python");
    assert_eq!(metadata.size, 1024);
    assert_eq!(metadata.parse_errors, 0);
}

#[test]
fn test_all_symbol_kinds() {
    let kinds = vec![
        SymbolKind::Function,
        SymbolKind::Class,
        SymbolKind::Variable,
        SymbolKind::Import,
        SymbolKind::Export,
        SymbolKind::Module,
        SymbolKind::Struct,
        SymbolKind::Enum,
        SymbolKind::Trait,
        SymbolKind::Interface,
        SymbolKind::Type,
    ];

    for kind in kinds {
        let s = kind.to_string();
        assert!(!s.is_empty());
    }
}

#[test]
fn test_deep_mode_available() {
    assert!(is_deep_mode_available());
}

#[test]
fn test_deep_mode_availability() {
    let available = is_deep_mode_available();
    assert!(available, "Deep Mode should be available when feature is enabled");
}

#[test]
fn test_deep_mode_audit() {
    let mut deep = DeepMode::new();
    assert!(deep.is_enabled());
    assert_eq!(deep.get_audit_trail().len(), 0);

    deep.record_event(AuditEvent::AnalysisStarted {
        source: "test.py".to_string(),
        timestamp: 1234567890,
    });

    assert_eq!(deep.get_audit_trail().len(), 1);
}
