//! Incremental indexing: which files changed, and which events matter.

use vstd::prelude::*;
use crate::language::{has_supported_extension, language_of};
use crate::symbol::FileMetadata;
use crate::text::{opt_as_str, strings_view};

verus! {

/// What happened to the paths of an event.
#[derive(Debug, Clone, Copy, PartialEq, Eq, Structural)]
pub enum FileChangeKind {
    Create,
    Modify,
    Delete,
    Rename,
    Other,
}

/// A change reported for one or more paths.
#[derive(Debug, Clone)]
pub struct FileChangeEvent {
    pub kind: FileChangeKind,
    pub paths: Vec<String>,
}

/// Whether one of the paths at or after `from` has a supported extension.
pub open spec fn any_supported(paths: Seq<String>, from: int) -> bool
    decreases paths.len() - from,
{
    if 0 <= from < paths.len() {
        language_of(paths[from]@) is Some || any_supported(paths, from + 1)
    } else {
        false
    }
}

/// `any_supported` holds exactly when some path has a supported extension.
pub proof fn lemma_any_supported(paths: Seq<String>, from: int)
    requires
        0 <= from,
    ensures
        any_supported(paths, from) <==> exists|i: int|
            from <= i < paths.len() && language_of(#[trigger] paths[i]@) is Some,
    decreases paths.len() - from,
{
    if from < paths.len() {
        lemma_any_supported(paths, from + 1);
    }
}

impl FileChangeEvent {
    /// Whether the event touches a file of a supported language: whether any
    /// of its paths has one of the supported extensions.
    pub fn is_relevant_file(&self) -> (r: bool)
        ensures
            r == any_supported(self.paths@, 0),
            r <==> exists|i: int|
                0 <= i < self.paths@.len() && language_of(#[trigger] self.paths@[i]@) is Some,
    {
        proof {
            lemma_any_supported(self.paths@, 0);
        }
        let mut i: usize = 0;
        while i < self.paths.len()
            invariant
                i <= self.paths.len(),
                any_supported(self.paths@, 0) == any_supported(self.paths@, i as int),
            decreases self.paths.len() - i,
        {
            if has_supported_extension(self.paths[i].as_str()) {
                return true;
            }
            i += 1;
        }
        false
    }
}

/// What the file system said of a path.
#[derive(Debug, Clone, Copy, PartialEq, Eq, Structural)]
pub enum FileProbe {
    /// Nothing exists at the path.
    Missing,
    /// Something exists there, but its metadata cannot be read.
    Unreadable,
    /// The file exists and its metadata can be read.
    Readable,
}

/// Why change detection stopped.
#[derive(Debug, Clone, Copy, PartialEq, Eq, Structural)]
pub enum ChangeError {
    /// The metadata of a file could not be read.
    MetadataUnavailable,
}

/// Whether a probed file counts as modified since it was last indexed. Every
/// file whose metadata can be read counts as modified.
pub open spec fn modified(probe: FileProbe) -> Result<bool, ChangeError> {
    match probe {
        FileProbe::Readable => Ok(true),
        _ => Err(ChangeError::MetadataUnavailable),
    }
}

/// Whether a file has been modified since `last_indexed`.
pub fn is_file_modified(probe: FileProbe, last_indexed: Option<&str>) -> (r: Result<
    bool,
    ChangeError,
>)
    ensures
        r == modified(probe),
{
    match probe {
        FileProbe::Readable => Ok(true),
        _ => Err(ChangeError::MetadataUnavailable),
    }
}

/// The probe of the file at `i`; a file without a probe counts as missing.
pub open spec fn probe_at(probes: Seq<FileProbe>, i: int) -> FileProbe {
    if 0 <= i < probes.len() {
        probes[i]
    } else {
        FileProbe::Missing
    }
}

/// The paths, in order, of the files at or after `from` that need indexing
/// again: missing files are passed over, and the first file that exists but
/// cannot be read ends the detection with an error.
pub open spec fn changed_from(
    files: Seq<FileMetadata>,
    probes: Seq<FileProbe>,
    from: int,
) -> Result<Seq<Seq<char>>, ChangeError>
    decreases files.len() - from,
{
    if 0 <= from < files.len() {
        match probe_at(probes, from) {
            FileProbe::Missing => changed_from(files, probes, from + 1),
            FileProbe::Unreadable => Err(ChangeError::MetadataUnavailable),
            FileProbe::Readable => match changed_from(files, probes, from + 1) {
                Ok(rest) => Ok(seq![files[from].path@] + rest),
                Err(e) => Err(e),
            },
        }
    } else {
        Ok(Seq::empty())
    }
}

/// The view of a result that holds a list of paths.
pub open spec fn paths_result_view(r: Result<Vec<String>, ChangeError>) -> Result<
    Seq<Seq<char>>,
    ChangeError,
> {
    match r {
        Ok(paths) => Ok(strings_view(paths@)),
        Err(e) => Err(e),
    }
}

/// Finds the files that need indexing again, given for each file what the
/// file system said of its path.
pub fn detect_changed_files(files: &[FileMetadata], probes: &[FileProbe]) -> (r: Result<
    Vec<String>,
    ChangeError,
>)
    ensures
        paths_result_view(r) == changed_from(files@, probes@, 0),
{
    let mut changed: Vec<String> = Vec::new();
    let mut i: usize = 0;
    while i < files.len()
        invariant
            i <= files.len(),
            changed_from(files@, probes@, 0) == (match changed_from(files@, probes@, i as int) {
                Ok(rest) => Ok(strings_view(changed@) + rest),
                Err(e) => Err(e),
            }),
        decreases files.len() - i,
    {
        let probe = if i < probes.len() {
            probes[i]
        } else {
            FileProbe::Missing
        };
        match probe {
            FileProbe::Missing => {},
            _ => {
                if is_file_modified(probe, opt_as_str(&files[i].last_indexed))? {
                    let ghost before = strings_view(changed@);
                    changed.push(files[i].path.clone());
                    proof {
                        assert(strings_view(changed@) =~= before + seq![files@[i as int].path@]);
                        match changed_from(files@, probes@, i + 1) {
                            Ok(rest) => {
                                assert(before + (seq![files@[i as int].path@] + rest) =~= (before
                                    + seq![files@[i as int].path@]) + rest);
                            },
                            Err(_) => {},
                        }
                    }
                }
            },
        }
        i += 1;
    }
    Ok(changed)
}

} // verus!
