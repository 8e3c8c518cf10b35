//! Indexing of files: the configuration, which files are indexed, and the
//! metadata recorded for each.

use vstd::prelude::*;
use vstd::string::StringExecFns;
use crate::language::{detect_language, language_of};
use crate::path::{extension, path_extension};
use crate::symbol::{file_views, FileMetadata, FileMetadataView};
use crate::text::{chars_of, contains, contains_name, strings_view};

verus! {

/// What to index and what to leave out.
#[derive(Debug, Clone)]
pub struct IndexerConfig {
    /// The directory at which discovery starts.
    pub root_dir: String,
    /// Extensions to index; empty for every supported language.
    pub extensions: Vec<String>,
    /// Names of directories that are not entered.
    pub exclude_dirs: Vec<String>,
    /// Files larger than this many bytes are left out.
    pub max_file_size: u64,
}

/// The largest file indexed by default: 10 MiB.
pub const DEFAULT_MAX_FILE_SIZE: u64 = 10485760;

/// The names of the directories that are left out by default.
pub open spec fn default_excluded() -> Seq<Seq<char>> {
    seq![
        ".git"@,
        "node_modules"@,
        "target"@,
        ".venv"@,
        "venv"@,
        "__pycache__"@,
        "dist"@,
        "build"@,
        ".next"@,
    ]
}

/// The names of the directories that are left out by default.
pub fn default_exclude_dirs() -> (r: Vec<String>)
    ensures
        strings_view(r@) == default_excluded(),
{
    let mut dirs: Vec<String> = Vec::new();
    dirs.push(".git".to_owned());
    dirs.push("node_modules".to_owned());
    dirs.push("target".to_owned());
    dirs.push(".venv".to_owned());
    dirs.push("venv".to_owned());
    dirs.push("__pycache__".to_owned());
    dirs.push("dist".to_owned());
    dirs.push("build".to_owned());
    dirs.push(".next".to_owned());
    dirs
}

impl IndexerConfig {
    /// The default configuration for the root directory `root_dir`.
    pub fn for_root(root_dir: &str) -> (r: IndexerConfig)
        ensures
            r.root_dir@ == root_dir@,
            r.extensions@.len() == 0,
            strings_view(r.exclude_dirs@) == default_excluded(),
            r.max_file_size == DEFAULT_MAX_FILE_SIZE,
    {
        IndexerConfig {
            root_dir: root_dir.to_owned(),
            extensions: Vec::new(),
            exclude_dirs: default_exclude_dirs(),
            max_file_size: DEFAULT_MAX_FILE_SIZE,
        }
    }

    /// Whether directories of this name are left out.
    pub open spec fn excludes(self, name: Seq<char>) -> bool {
        contains_name(self.exclude_dirs@, name)
    }

    /// Whether a file with this path and size is indexed: it is no larger
    /// than the size cap, its language is supported, and its extension is in
    /// the allow-list if there is one.
    pub open spec fn admits(self, path: Seq<char>, size: u64) -> bool {
        &&& size <= self.max_file_size
        &&& language_of(path) is Some
        &&& (self.extensions@.len() == 0 || (extension(path) matches Some(ext) && contains_name(
            self.extensions@,
            ext,
        )))
    }

    /// Whether directories named `name` are left out.
    pub fn is_excluded(&self, name: &str) -> (r: bool)
        ensures
            r == self.excludes(name@),
    {
        contains(&self.exclude_dirs, name)
    }
}

impl Default for IndexerConfig {
    /// The default configuration for the current directory.
    fn default() -> (r: IndexerConfig)
        ensures
            r.root_dir@ == "."@,
            r.extensions@.len() == 0,
            strings_view(r.exclude_dirs@) == default_excluded(),
            r.max_file_size == DEFAULT_MAX_FILE_SIZE,
    {
        IndexerConfig::for_root(".")
    }
}

/// Why a file was not indexed.
#[derive(Debug, Clone, Copy, PartialEq, Eq, Structural)]
pub enum IndexError {
    /// The file's metadata could not be read.
    MetadataUnavailable,
    /// The file's extension is not that of a supported language.
    UnsupportedLanguage,
}

/// A path with the size of the file there, or without it where the file's
/// metadata could not be read.
#[derive(Debug, Clone)]
pub struct FileStat {
    pub path: String,
    pub size: Option<u64>,
}

/// Decides whether a file with this path and size is indexed.
pub fn should_index_file(path: &str, size: u64, config: &IndexerConfig) -> (r: bool)
    ensures
        r == config.admits(path@, size),
{
    if size > config.max_file_size {
        return false;
    }
    if detect_language(path).is_none() {
        return false;
    }
    if config.extensions.len() != 0 {
        return match path_extension(path) {
            Some(ext) => contains(&config.extensions, ext.as_str()),
            None => false,
        };
    }
    true
}

/// The metadata of a file that has not been stored yet.
pub open spec fn fresh_metadata(path: Seq<char>, language: Seq<char>, size: u64)
    -> FileMetadataView {
    FileMetadataView { id: None, path, language, size, last_indexed: None, parse_errors: 0 }
}

/// The metadata recorded for a file of a supported language.
pub open spec fn metadata_of(path: Seq<char>, size: u64) -> Result<FileMetadataView, IndexError> {
    match language_of(path) {
        Some(language) => Ok(fresh_metadata(path, language, size)),
        None => Err(IndexError::UnsupportedLanguage),
    }
}

/// The view of a result that holds file metadata.
pub open spec fn metadata_result_view(r: Result<FileMetadata, IndexError>) -> Result<
    FileMetadataView,
    IndexError,
> {
    match r {
        Ok(m) => Ok(m@),
        Err(e) => Err(e),
    }
}

/// Builds the metadata of the file at `path`, which holds `size` bytes.
pub fn create_file_metadata(path: &str, size: u64) -> (r: Result<FileMetadata, IndexError>)
    ensures
        metadata_result_view(r) == metadata_of(path@, size),
{
    match detect_language(path) {
        Some(language) => Ok(
            FileMetadata {
                id: None,
                path: path.to_owned(),
                language: language.to_owned(),
                size,
                last_indexed: None,
                parse_errors: 0,
            },
        ),
        None => Err(IndexError::UnsupportedLanguage),
    }
}

/// The metadata recorded for a stat'ed file.
pub open spec fn stat_metadata(stat: FileStat) -> Result<FileMetadataView, IndexError> {
    match stat.size {
        Some(size) => metadata_of(stat.path@, size),
        None => Err(IndexError::MetadataUnavailable),
    }
}

/// Builds the metadata of a stat'ed file.
pub fn stat_file_metadata(stat: &FileStat) -> (r: Result<FileMetadata, IndexError>)
    ensures
        metadata_result_view(r) == stat_metadata(*stat),
{
    match stat.size {
        Some(size) => create_file_metadata(stat.path.as_str(), size),
        None => Err(IndexError::MetadataUnavailable),
    }
}

/// The metadata of the files at or after `from` for which metadata can be
/// built, in the order of the files.
pub open spec fn indexed_from(files: Seq<FileStat>, from: int) -> Seq<FileMetadataView>
    decreases files.len() - from,
{
    if 0 <= from < files.len() {
        match stat_metadata(files[from]) {
            Ok(m) => seq![m] + indexed_from(files, from + 1),
            Err(_) => indexed_from(files, from + 1),
        }
    } else {
        Seq::empty()
    }
}

/// The reports of progress over `total` files, in the order in which they
/// are made: one for each file, with the file's position, counted from 1,
/// and the number of files.
pub open spec fn reports_for(total: nat) -> Seq<(usize, usize)> {
    Seq::new(total, |i: int| ((i + 1) as usize, total as usize))
}

/// The reports of progress to make over `total` files, in order.
pub fn progress_reports(total: usize) -> (r: Vec<(usize, usize)>)
    ensures
        r@ == reports_for(total as nat),
{
    let mut reports: Vec<(usize, usize)> = Vec::new();
    let mut i: usize = 0;
    while i < total
        invariant
            i <= total,
            reports@.len() == i,
            forall|k: int| 0 <= k < i ==> reports@[k] == ((k + 1) as usize, total),
        decreases total - i,
    {
        reports.push((i + 1, total));
        i += 1;
    }
    assert(reports@ =~= reports_for(total as nat));
    reports
}

/// What indexing a list of files gives.
#[derive(Debug, Clone)]
pub struct IndexOutcome {
    /// The reports of progress to make, in order.
    pub reports: Vec<(usize, usize)>,
    /// The metadata of the files that were indexed, in the order of the
    /// files.
    pub files: Vec<FileMetadata>,
}

/// The metadata of the files for which metadata can be built, in the order
/// of the files.
pub fn indexed_files(files: &[FileStat]) -> (r: Vec<FileMetadata>)
    ensures
        file_views(r@) == indexed_from(files@, 0),
{
    let mut out: Vec<FileMetadata> = Vec::new();
    let mut i: usize = 0;
    while i < files.len()
        invariant
            i <= files.len(),
            indexed_from(files@, 0) == file_views(out@) + indexed_from(files@, i as int),
        decreases files.len() - i,
    {
        if let Ok(metadata) = stat_file_metadata(&files[i]) {
            out.push(metadata);
        }
        i += 1;
    }
    out
}

/// Indexes the files one after the other. There is one report of progress
/// for each file, in the order of the files, with the file's position,
/// counted from 1, and the number of files. A file for which no metadata can
/// be built is passed over.
pub fn index_files_with_progress(files: &[FileStat]) -> (r: IndexOutcome)
    ensures
        r.reports@ == reports_for(files@.len()),
        file_views(r.files@) == indexed_from(files@, 0),
{
    IndexOutcome { reports: progress_reports(files.len()), files: indexed_files(files) }
}

/// Indexes the changed files one after the other, as
/// `index_files_with_progress` does; without progress there are no reports.
pub fn reindex_files(changed_files: &[FileStat], with_progress: bool) -> (r: IndexOutcome)
    ensures
        r.reports@ == (if with_progress {
            reports_for(changed_files@.len())
        } else {
            Seq::empty()
        }),
        file_views(r.files@) == indexed_from(changed_files@, 0),
{
    let reports = if with_progress {
        progress_reports(changed_files.len())
    } else {
        Vec::new()
    };
    IndexOutcome { reports, files: indexed_files(changed_files) }
}

/// What a change of one file asks for: nothing if the file is not one that
/// is indexed, else its metadata.
pub open spec fn change_outcome(stat: FileStat, config: IndexerConfig) -> Result<
    Option<FileMetadataView>,
    IndexError,
> {
    match stat.size {
        None => Err(IndexError::MetadataUnavailable),
        Some(size) => if config.admits(stat.path@, size) {
            match metadata_of(stat.path@, size) {
                Ok(m) => Ok(Some(m)),
                Err(e) => Err(e),
            }
        } else {
            Ok(None)
        },
    }
}

/// The view of the result of handling a change.
pub open spec fn change_result_view(r: Result<Option<FileMetadata>, IndexError>) -> Result<
    Option<FileMetadataView>,
    IndexError,
> {
    match r {
        Ok(Some(m)) => Ok(Some(m@)),
        Ok(None) => Ok(None),
        Err(e) => Err(e),
    }
}

/// Handles the change of a single file: applies the discovery filter to it
/// and builds its metadata if it passes.
pub fn handle_file_change(stat: &FileStat, config: &IndexerConfig) -> (r: Result<
    Option<FileMetadata>,
    IndexError,
>)
    ensures
        change_result_view(r) == change_outcome(*stat, *config),
{
    match stat.size {
        None => Err(IndexError::MetadataUnavailable),
        Some(size) => {
            if !should_index_file(stat.path.as_str(), size, config) {
                return Ok(None);
            }
            match create_file_metadata(stat.path.as_str(), size) {
                Ok(m) => Ok(Some(m)),
                Err(e) => Err(e),
            }
        },
    }
}

/// The path of the entry `name` of the directory `dir`.
pub open spec fn join(dir: Seq<char>, name: Seq<char>) -> Seq<char> {
    if dir.len() == 0 {
        name
    } else if dir.last() == '/' {
        dir + name
    } else {
        dir + seq!['/'] + name
    }
}

/// Builds the path of the entry `name` of the directory `dir`.
pub fn join_path(dir: &str, name: &str) -> (r: String)
    ensures
        r@ == join(dir@, name@),
{
    let chars = chars_of(dir);
    if chars.len() == 0 {
        return name.to_owned();
    }
    let mut out = dir.to_owned();
    if chars[chars.len() - 1] != '/' {
        proof {
            reveal_strlit("/");
        }
        out.append("/");
    }
    out.append(name);
    out
}

} // verus!
