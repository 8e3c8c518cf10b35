use analyzer_core::discovery::{
    is_plain_name, DirEntry, Discovery, DiscoveryError, EntryKind, Listing,
};
use analyzer_core::indexer::{
    create_file_metadata, handle_file_change, index_files_with_progress, indexed_files, join_path,
    progress_reports, reindex_files, should_index_file, FileStat, IndexError, IndexerConfig,
};

fn file(name: &str, size: u64) -> DirEntry {
    DirEntry { name: name.to_string(), kind: EntryKind::File, size: Some(size) }
}

fn dir(name: &str) -> DirEntry {
    DirEntry { name: name.to_string(), kind: EntryKind::Directory, size: None }
}

fn stat(path: &str, size: Option<u64>) -> FileStat {
    FileStat { path: path.to_string(), size }
}

/// Walks a tree that is given as the listing of each directory.
fn walk(config: IndexerConfig, tree: &[(&str, Listing)]) -> Result<Vec<String>, DiscoveryError> {
    let mut discovery = Discovery::start(config);
    let mut read = Vec::new();
    while let Some(path) = discovery.next_directory().map(|p| p.to_string()) {
        read.push(path.clone());
        let listing = tree
            .iter()
            .find(|(p, _)| *p == path)
            .map(|(_, l)| l.clone())
            .unwrap_or(Listing::NotADirectory);
        discovery = discovery.feed(listing);
    }
    assert!(discovery.is_finished());
    discovery.finish()
}

#[test]
fn test_discover_files() {
    let tree = [(
        "/tmp/project",
        Listing::Entries(vec![file("test.py", 0), file("test.ts", 0), file("test.rs", 0), file("test.txt", 0)]),
    )];
    let files = walk(IndexerConfig::for_root("/tmp/project"), &tree).unwrap();
    assert_eq!(files.len(), 3);
    assert_eq!(files, vec!["/tmp/project/test.py", "/tmp/project/test.ts", "/tmp/project/test.rs"]);
}

#[test]
fn test_exclude_directories() {
    let tree = [
        ("/tmp/project", Listing::Entries(vec![dir("node_modules"), file("main.js", 0)])),
        ("/tmp/project/node_modules", Listing::Entries(vec![file("test.js", 0)])),
    ];
    let files = walk(IndexerConfig::for_root("/tmp/project"), &tree).unwrap();
    assert_eq!(files.len(), 1);
    assert!(files[0].ends_with("main.js"));
}

#[test]
fn discovery_leaves_out_what_lies_below_an_excluded_directory() {
    let tree = [
        (".", Listing::Entries(vec![dir("src"), dir("node_modules")])),
        ("./src", Listing::Entries(vec![file("a.py", 5)])),
        ("./node_modules", Listing::Entries(vec![file("b.py", 5)])),
    ];
    let files = walk(IndexerConfig::default(), &tree).unwrap();
    assert_eq!(files, vec!["./src/a.py"]);
}

#[test]
fn discovery_never_asks_for_an_excluded_directory() {
    let config = IndexerConfig::for_root("r");
    let mut discovery = Discovery::start(config);
    assert_eq!(discovery.next_directory(), Some("r"));
    discovery = discovery.feed(Listing::Entries(vec![dir(".git"), dir("a"), dir("target"), file("x.rs", 1)]));
    assert_eq!(discovery.next_directory(), Some("r/a"));
    discovery = discovery.feed(Listing::Entries(vec![dir("build"), dir("b"), file("y.rs", 1)]));
    assert_eq!(discovery.next_directory(), Some("r/a/b"));
    discovery = discovery.feed(Listing::Entries(vec![dir("venv"), file("z.rs", 1)]));
    assert_eq!(discovery.next_directory(), None);
    let files = discovery.finish().unwrap();
    assert_eq!(files, vec!["r/a/b/z.rs", "r/a/y.rs", "r/x.rs"]);
    for path in &files {
        for segment in path.split('/') {
            assert!(!IndexerConfig::default().exclude_dirs.iter().any(|d| d == segment));
        }
    }
}

#[test]
fn discovery_goes_through_a_directory_before_what_follows_it() {
    let tree = [
        ("root", Listing::Entries(vec![file("a.py", 1), dir("sub"), file("z.py", 1)])),
        ("root/sub", Listing::Entries(vec![file("m.py", 1), dir("deep"), file("n.py", 1)])),
        ("root/sub/deep", Listing::Entries(vec![file("q.py", 1)])),
    ];
    let files = walk(IndexerConfig::for_root("root"), &tree).unwrap();
    assert_eq!(files, vec!["root/a.py", "root/sub/m.py", "root/sub/deep/q.py", "root/sub/n.py", "root/z.py"]);
}

#[test]
fn discovery_of_an_excluded_root_finds_nothing() {
    let tree = [("/work/target", Listing::Entries(vec![file("a.rs", 1)]))];
    let config = IndexerConfig::for_root("/work/target");
    assert_eq!(Discovery::start(config.clone()).next_directory(), None);
    assert_eq!(walk(config, &tree), Ok(vec![]));
    let trailing = IndexerConfig::for_root("/work/target/");
    assert_eq!(walk(trailing, &tree), Ok(vec![]));
}

#[test]
fn discovery_of_a_root_that_is_no_directory_finds_nothing() {
    assert_eq!(walk(IndexerConfig::for_root("file.py"), &[]), Ok(vec![]));
    let mut discovery = Discovery::start(IndexerConfig::for_root("file.py"));
    discovery = discovery.feed(Listing::NotADirectory);
    discovery = discovery.feed(Listing::Entries(vec![file("late.py", 1)]));
    assert_eq!(discovery.finish(), Ok(vec![]));
}

#[test]
fn discovery_fails_where_something_cannot_be_read() {
    let unreadable = [
        ("r", Listing::Entries(vec![file("a.py", 1), dir("locked"), file("b.py", 1)])),
        ("r/locked", Listing::Unreadable),
    ];
    assert_eq!(walk(IndexerConfig::for_root("r"), &unreadable), Err(DiscoveryError::DirectoryUnreadable));
    let broken = DirEntry { name: "b.py".to_string(), kind: EntryKind::File, size: None };
    let no_metadata = [("r", Listing::Entries(vec![file("a.py", 1), broken, file("c.py", 1)]))];
    assert_eq!(walk(IndexerConfig::for_root("r"), &no_metadata), Err(DiscoveryError::MetadataUnavailable));
}

#[test]
fn discovery_leaves_out_large_files_other_entries_and_other_extensions() {
    let mut config = IndexerConfig::for_root("r");
    config.max_file_size = 100;
    config.extensions = vec!["py".to_string(), "rs".to_string()];
    let socket = DirEntry { name: "s.py".to_string(), kind: EntryKind::Other, size: None };
    let tree = [(
        "r",
        Listing::Entries(vec![
            file("small.py", 100),
            file("large.py", 101),
            file("other.ts", 1),
            file("stub.pyi", 1),
            file("lib.rs", 0),
            file("README", 1),
            socket,
        ]),
    )];
    assert_eq!(walk(config, &tree), Ok(vec!["r/small.py".to_string(), "r/lib.rs".to_string()]));
}

#[test]
fn discovery_passes_over_entries_without_a_plain_name() {
    let tree = [
        (
            "r",
            Listing::Entries(vec![
                file("node_modules/b.py", 1),
                file("", 1),
                dir("a/node_modules"),
                dir(""),
                file("ok.py", 1),
            ]),
        ),
        ("r/a/node_modules", Listing::Entries(vec![file("c.py", 1)])),
    ];
    assert_eq!(walk(IndexerConfig::for_root("r"), &tree), Ok(vec!["r/ok.py".to_string()]));
    assert!(is_plain_name("a.py"));
    assert!(is_plain_name(".."));
    assert!(!is_plain_name(""));
    assert!(!is_plain_name("a/b"));
    assert!(!is_plain_name("/"));
}

#[test]
fn default_configuration_is_the_documented_one() {
    let config = IndexerConfig::default();
    assert_eq!(config.root_dir, ".");
    assert!(config.extensions.is_empty());
    assert_eq!(
        config.exclude_dirs,
        vec![".git", "node_modules", "target", ".venv", "venv", "__pycache__", "dist", "build", ".next"]
    );
    assert_eq!(config.max_file_size, 10 * 1024 * 1024);
    assert!(config.is_excluded("dist"));
    assert!(!config.is_excluded("Dist"));
    assert!(!config.is_excluded("src"));
}

#[test]
fn paths_are_joined_with_one_separator() {
    assert_eq!(join_path("a", "b.py"), "a/b.py");
    assert_eq!(join_path("a/", "b.py"), "a/b.py");
    assert_eq!(join_path("/", "b.py"), "/b.py");
    assert_eq!(join_path("", "b.py"), "b.py");
    assert_eq!(join_path(".", "b.py"), "./b.py");
}

#[test]
fn files_are_indexed_by_size_language_and_allowed_extension() {
    let config = IndexerConfig::default();
    assert!(should_index_file("a.py", 10 * 1024 * 1024, &config));
    assert!(!should_index_file("a.py", 10 * 1024 * 1024 + 1, &config));
    assert!(!should_index_file("a.txt", 1, &config));
    assert!(!should_index_file("a", 1, &config));
    let mut only_rust = IndexerConfig::default();
    only_rust.extensions = vec!["rs".to_string()];
    assert!(should_index_file("a.rs", 1, &only_rust));
    assert!(!should_index_file("a.py", 1, &only_rust));
}

#[test]
fn test_create_file_metadata() {
    let metadata = create_file_metadata("/tmp/x/test.py", 0).unwrap();
    assert_eq!(metadata.language, "python");
    assert!(metadata.path.ends_with("test.py"));
    assert_eq!(metadata.id, None);
    assert_eq!(metadata.size, 0);
    assert_eq!(metadata.last_indexed, None);
    assert_eq!(metadata.parse_errors, 0);
    assert_eq!(create_file_metadata("notes.txt", 3).err(), Some(IndexError::UnsupportedLanguage));
}

#[test]
fn indexing_reports_each_file_and_passes_over_failures() {
    let files = vec![stat("a.py", Some(1)), stat("b.txt", Some(2)), stat("c.rs", None), stat("d.ts", Some(4))];
    let outcome = index_files_with_progress(&files);
    let found: Vec<(&str, &str, u64)> =
        outcome.files.iter().map(|m| (m.path.as_str(), m.language.as_str(), m.size)).collect();
    assert_eq!(found, vec![("a.py", "python", 1), ("d.ts", "typescript", 4)]);
    assert_eq!(outcome.reports, vec![(1, 4), (2, 4), (3, 4), (4, 4)]);
    let nothing = index_files_with_progress(&[]);
    assert!(nothing.reports.is_empty());
    assert!(nothing.files.is_empty());
}

#[test]
fn progress_is_reported_once_for_each_file_in_order() {
    assert_eq!(progress_reports(0), vec![]);
    assert_eq!(progress_reports(1), vec![(1, 1)]);
    assert_eq!(progress_reports(3), vec![(1, 3), (2, 3), (3, 3)]);
    let many = progress_reports(1000);
    assert_eq!(many.len(), 1000);
    assert!(many.iter().enumerate().all(|(i, report)| *report == (i + 1, 1000)));
}

#[test]
fn reindexing_works_with_progress_and_without_it() {
    let files: Vec<FileStat> = (0..5).map(|i| stat(&format!("test{}.rs", i), Some(0))).collect();
    let outcome = reindex_files(&files, true);
    assert_eq!(outcome.files.len(), 5);
    assert!(outcome.files.iter().all(|m| m.language == "rust"));
    assert_eq!(outcome.reports, vec![(1, 5), (2, 5), (3, 5), (4, 5), (5, 5)]);
    let silent = reindex_files(&files, false);
    assert_eq!(silent.files.len(), 5);
    assert!(silent.reports.is_empty());
    assert_eq!(indexed_files(&files).len(), 5);
}

#[test]
fn change_of_a_file_is_handled_by_the_discovery_filter() {
    let config = IndexerConfig::default();
    let changed = handle_file_change(&stat("src/a.py", Some(12)), &config).unwrap().unwrap();
    assert_eq!(changed.path, "src/a.py");
    assert_eq!(changed.language, "python");
    assert_eq!(changed.size, 12);
    assert!(handle_file_change(&stat("src/a.md", Some(12)), &config).unwrap().is_none());
    assert!(handle_file_change(&stat("src/a.py", Some(u64::MAX)), &config).unwrap().is_none());
    assert_eq!(handle_file_change(&stat("src/a.py", None), &config).err(), Some(IndexError::MetadataUnavailable));
}
