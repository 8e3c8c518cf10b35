//! Discovery of the files to index: a walk of a directory tree that is told,
//! one directory at a time, what the directory holds, and that decides which
//! directories to enter and which files to keep.

use vstd::prelude::*;
use crate::indexer::{join, join_path, should_index_file, IndexerConfig};
use crate::path::{
    file_name, last_index_of, lemma_last_index_is, lemma_last_index_of, path_file_name,
};
use crate::text::{chars_of, has_prefix, opt_str_view, opt_view, strings_view};

verus! {

/// What an entry of a directory is.
#[derive(Debug, Clone, Copy, PartialEq, Eq, Structural)]
pub enum EntryKind {
    Directory,
    File,
    /// Neither a directory nor a regular file.
    Other,
}

/// One entry of a directory, as listed.
#[derive(Debug, Clone)]
pub struct DirEntry {
    /// The entry's name within its directory.
    pub name: String,
    pub kind: EntryKind,
    /// The size of a file in bytes; `None` where its metadata cannot be read.
    pub size: Option<u64>,
}

/// What reading a directory gave.
#[derive(Debug, Clone)]
pub enum Listing {
    /// The path does not name a directory.
    NotADirectory,
    /// The directory, or one of its entries, could not be read.
    Unreadable,
    /// The entries of the directory, in the order they were listed.
    Entries(Vec<DirEntry>),
}

/// Why discovery failed.
#[derive(Debug, Clone, Copy, PartialEq, Eq, Structural)]
pub enum DiscoveryError {
    /// A directory could not be read.
    DirectoryUnreadable,
    /// The metadata of a file could not be read.
    MetadataUnavailable,
}

/// An entry that waits to be looked at, with the directory that holds it.
pub struct PendingEntry {
    pub dir: Seq<char>,
    pub name: Seq<char>,
    pub kind: EntryKind,
    pub size: Option<u64>,
}

/// The state of a walk.
pub struct WalkState {
    /// Entries that wait to be looked at; the last one is looked at first.
    pub pending: Seq<PendingEntry>,
    /// The directory whose listing the walk waits for.
    pub awaiting: Option<Seq<char>>,
    /// The paths of the files found so far.
    pub files: Seq<Seq<char>>,
    /// The error that ended the walk.
    pub failure: Option<DiscoveryError>,
}

/// The walk after the error `error`: nothing is pending or awaited any more.
pub open spec fn failed(state: WalkState, error: DiscoveryError) -> WalkState {
    WalkState { pending: Seq::empty(), awaiting: None, files: state.files, failure: Some(error) }
}

/// What can be the name of an entry of a directory: a name that is not
/// empty and holds no separator.
pub open spec fn plain_name(name: Seq<char>) -> bool {
    name.len() > 0 && forall|k: int| 0 <= k < name.len() ==> name[k] != '/'
}

/// Looks at pending entries, last one first, until a directory has to be read
/// or nothing is pending. An entry without a plain name is passed over. A
/// directory is entered unless its name is excluded. A file is kept if the
/// configuration admits it. A file whose metadata cannot be read ends the
/// walk with an error.
pub open spec fn settle(config: IndexerConfig, state: WalkState) -> WalkState
    decreases state.pending.len(),
{
    if state.pending.len() == 0 {
        WalkState { awaiting: None, ..state }
    } else {
        let top = state.pending.last();
        let rest = WalkState { pending: state.pending.drop_last(), ..state };
        let path = join(top.dir, top.name);
        if !plain_name(top.name) {
            settle(config, rest)
        } else {
            match top.kind {
                EntryKind::Directory => if config.excludes(top.name) {
                    settle(config, rest)
                } else {
                    WalkState { awaiting: Some(path), ..rest }
                },
                EntryKind::File => match top.size {
                    Some(size) => if config.admits(path, size) {
                        settle(config, WalkState { files: rest.files.push(path), ..rest })
                    } else {
                        settle(config, rest)
                    },
                    None => failed(state, DiscoveryError::MetadataUnavailable),
                },
                EntryKind::Other => settle(config, rest),
            }
        }
    }
}

/// The entries of the directory `dir` as pending entries, so that the first
/// one listed is looked at first.
pub open spec fn stacked(dir: Seq<char>, entries: Seq<DirEntry>) -> Seq<PendingEntry> {
    Seq::new(
        entries.len(),
        |i: int|
            {
                let e = entries[entries.len() - 1 - i];
                PendingEntry { dir, name: e.name@, kind: e.kind, size: e.size }
            },
    )
}

/// The view of a listing.
pub enum ListingView {
    NotADirectory,
    Unreadable,
    Entries(Seq<DirEntry>),
}

impl View for Listing {
    type V = ListingView;

    open spec fn view(&self) -> ListingView {
        match self {
            Listing::NotADirectory => ListingView::NotADirectory,
            Listing::Unreadable => ListingView::Unreadable,
            Listing::Entries(entries) => ListingView::Entries(entries@),
        }
    }
}

/// The walk at its start: it waits for the listing of the root directory,
/// unless the root's own name is excluded.
pub open spec fn initial(config: IndexerConfig) -> WalkState {
    WalkState {
        pending: Seq::empty(),
        awaiting: if root_admitted(config) {
            Some(config.root_dir@)
        } else {
            None
        },
        files: Seq::empty(),
        failure: None,
    }
}

/// The walk after the listing of the directory it waited for. A path that is
/// no directory holds nothing. A directory that cannot be read ends the walk
/// with an error.
pub open spec fn after_listing(
    config: IndexerConfig,
    state: WalkState,
    listing: ListingView,
) -> WalkState {
    match state.awaiting {
        None => state,
        Some(dir) => match listing {
            ListingView::NotADirectory => settle(config, state),
            ListingView::Unreadable => failed(state, DiscoveryError::DirectoryUnreadable),
            ListingView::Entries(entries) => settle(
                config,
                WalkState { pending: state.pending + stacked(dir, entries), ..state },
            ),
        },
    }
}

/// The root directory is not itself excluded by its name.
pub open spec fn root_admitted(config: IndexerConfig) -> bool {
    match file_name(config.root_dir@) {
        Some(name) => !config.excludes(name),
        None => true,
    }
}

/// `path[from..to]` is a directory segment of `path`: it holds no separator,
/// it begins the path or follows a separator, and a separator follows it.
pub open spec fn directory_segment(path: Seq<char>, from: int, to: int) -> bool {
    &&& 0 <= from < to < path.len()
    &&& path[to] == '/'
    &&& (from == 0 || path[from - 1] == '/')
    &&& forall|k: int| from <= k < to ==> path[k] != '/'
}

/// No directory segment of `path` that begins at or after `base` is the name
/// of an excluded directory.
pub open spec fn unexcluded_from(config: IndexerConfig, path: Seq<char>, base: int) -> bool {
    forall|from: int, to: int|
        base <= from && #[trigger] directory_segment(path, from, to) ==> !config.excludes(
            path.subrange(from, to),
        )
}

/// `path` lies below the root, the root is not excluded, and none of the
/// directories between the root and what `path` names is excluded.
pub open spec fn below_root(config: IndexerConfig, path: Seq<char>) -> bool {
    &&& root_admitted(config)
    &&& has_prefix(path, config.root_dir@)
    &&& unexcluded_from(config, path, config.root_dir@.len() as int)
}

/// `dir` is the root or a directory below it that the walk may enter: none
/// of the directories from the root down to `dir` itself is excluded.
pub open spec fn walked(config: IndexerConfig, dir: Seq<char>) -> bool {
    &&& below_root(config, dir)
    &&& dir == config.root_dir@ || {
        let start = last_index_of(dir, '/') + 1;
        config.root_dir@.len() <= start < dir.len() && !config.excludes(dir.skip(start))
    }
}

/// A file of this path is admitted at some size.
pub open spec fn admitted(config: IndexerConfig, path: Seq<char>) -> bool {
    exists|size: u64| #[trigger] config.admits(path, size)
}

/// What holds of a walk that began at `initial`: whatever is pending lies in
/// a directory that was reached without entering an excluded one, and so
/// does every file found; every file found is one that the configuration
/// admits.
pub open spec fn sound(config: IndexerConfig, state: WalkState) -> bool {
    &&& forall|i: int|
        0 <= i < state.pending.len() ==> walked(config, (#[trigger] state.pending[i]).dir)
    &&& state.awaiting matches Some(dir) ==> walked(config, dir)
    &&& forall|i: int|
        0 <= i < state.files.len() ==> below_root(config, #[trigger] state.files[i])
            && admitted(config, state.files[i])
}

/// The path of an entry with a plain name in a directory that the walk may
/// enter lies below the root, and its last segment is the name.
pub proof fn lemma_join(config: IndexerConfig, dir: Seq<char>, name: Seq<char>)
    requires
        walked(config, dir),
        plain_name(name),
    ensures
        below_root(config, join(dir, name)),
        last_index_of(join(dir, name), '/') + 1 == join(dir, name).len() - name.len(),
        config.root_dir@.len() <= join(dir, name).len() - name.len(),
        join(dir, name).skip(join(dir, name).len() - name.len()) == name,
{
    let root = config.root_dir@;
    let path = join(dir, name);
    let start = path.len() - name.len();
    lemma_last_index_of(dir, '/');
    assert(path.skip(start) =~= name);
    assert(path.take(dir.len() as int) =~= dir);
    assert(path.take(root.len() as int) =~= dir.take(root.len() as int));
    lemma_last_index_is(path, '/', start - 1);
    assert forall|from: int, to: int|
        root.len() <= from && #[trigger] directory_segment(path, from, to) implies !config.excludes(
        path.subrange(from, to),
    ) by {
        // The separator after the segment is one of `dir` or the one that
        // joins `dir` and the name: the name holds none.
        assert(to < start);
        if to < dir.len() {
            assert(directory_segment(dir, from, to));
            assert(path.subrange(from, to) =~= dir.subrange(from, to));
        } else {
            // The segment is the last one of `dir`.
            let last = last_index_of(dir, '/') + 1;
            assert(from == last);
            assert(path.subrange(from, to) =~= dir.skip(last));
        }
    }
}

/// Entering a directory that is not excluded, from one that the walk may
/// enter, leads to one that it may enter.
pub proof fn lemma_enter(config: IndexerConfig, dir: Seq<char>, name: Seq<char>)
    requires
        walked(config, dir),
        plain_name(name),
        !config.excludes(name),
    ensures
        walked(config, join(dir, name)),
{
    lemma_join(config, dir, name);
}

/// The walk at its start is sound.
pub proof fn lemma_initial_sound(config: IndexerConfig)
    ensures
        sound(config, initial(config)),
{
    let root = config.root_dir@;
    assert(root.subrange(0, root.len() as int) =~= root);
    assert forall|from: int, to: int|
        root.len() <= from && #[trigger] directory_segment(root, from, to) implies !config.excludes(
        root.subrange(from, to),
    ) by {}
}

/// Settling keeps a walk sound.
pub proof fn lemma_settle_sound(config: IndexerConfig, state: WalkState)
    requires
        sound(config, state),
    ensures
        sound(config, settle(config, state)),
    decreases state.pending.len(),
{
    if state.pending.len() > 0 {
        let top = state.pending.last();
        let rest = WalkState { pending: state.pending.drop_last(), ..state };
        let path = join(top.dir, top.name);
        assert(walked(config, top.dir));
        assert forall|i: int| 0 <= i < rest.pending.len() implies walked(
            config,
            (#[trigger] rest.pending[i]).dir,
        ) by {
            assert(rest.pending[i] == state.pending[i]);
        }
        if !plain_name(top.name) {
            lemma_settle_sound(config, rest);
        } else {
            lemma_join(config, top.dir, top.name);
            match top.kind {
                EntryKind::Directory => {
                    if config.excludes(top.name) {
                        lemma_settle_sound(config, rest);
                    } else {
                        lemma_enter(config, top.dir, top.name);
                    }
                },
                EntryKind::File => {
                    match top.size {
                        Some(size) => {
                            if config.admits(path, size) {
                                let kept = WalkState { files: rest.files.push(path), ..rest };
                                assert forall|i: int| 0 <= i < kept.files.len() implies below_root(
                                    config,
                                    #[trigger] kept.files[i],
                                ) && admitted(config, kept.files[i]) by {
                                    if i < rest.files.len() {
                                        assert(kept.files[i] == state.files[i]);
                                    }
                                }
                                lemma_settle_sound(config, kept);
                            } else {
                                lemma_settle_sound(config, rest);
                            }
                        },
                        None => {},
                    }
                },
                EntryKind::Other => {
                    lemma_settle_sound(config, rest);
                },
            }
        }
    }
}

/// A listing keeps a walk sound.
pub proof fn lemma_listing_sound(config: IndexerConfig, state: WalkState, listing: ListingView)
    requires
        sound(config, state),
    ensures
        sound(config, after_listing(config, state, listing)),
{
    match state.awaiting {
        None => {},
        Some(dir) => {
            match listing {
                ListingView::NotADirectory => {
                    lemma_settle_sound(config, state);
                },
                ListingView::Unreadable => {},
                ListingView::Entries(entries) => {
                    let more = WalkState {
                        pending: state.pending + stacked(dir, entries),
                        ..state
                    };
                    assert forall|i: int| 0 <= i < more.pending.len() implies walked(
                        config,
                        (#[trigger] more.pending[i]).dir,
                    ) by {
                        if i < state.pending.len() {
                            assert(more.pending[i] == state.pending[i]);
                        } else {
                            assert(more.pending[i] == stacked(dir, entries)[i
                                - state.pending.len()]);
                        }
                    }
                    lemma_settle_sound(config, more);
                },
            }
        },
    }
}

/// Whether `name` can be the name of an entry of a directory.
pub fn is_plain_name(name: &str) -> (r: bool)
    ensures
        r == plain_name(name@),
{
    let chars = chars_of(name);
    let mut i: usize = 0;
    while i < chars.len()
        invariant
            chars@ == name@,
            i <= chars.len(),
            forall|k: int| 0 <= k < i ==> name@[k] != '/',
        decreases chars.len() - i,
    {
        if chars[i] == '/' {
            return false;
        }
        i += 1;
    }
    chars.len() > 0
}

/// An entry that waits to be looked at, with the directory that holds it.
struct Waiting {
    dir: String,
    entry: DirEntry,
}

impl Waiting {
    /// The entry as a pending entry.
    spec fn pending(self) -> PendingEntry {
        PendingEntry {
            dir: self.dir@,
            name: self.entry.name@,
            kind: self.entry.kind,
            size: self.entry.size,
        }
    }
}

/// The entries that wait, as pending entries.
spec fn pending_of(waiting: Seq<Waiting>) -> Seq<PendingEntry> {
    Seq::new(waiting.len(), |i: int| waiting[i].pending())
}

/// The state that the parts of a walk stand for.
spec fn state_of(
    waiting: Seq<Waiting>,
    awaiting: Option<String>,
    files: Seq<String>,
    failure: Option<DiscoveryError>,
) -> WalkState {
    WalkState {
        pending: pending_of(waiting),
        awaiting: opt_view(awaiting),
        files: strings_view(files),
        failure,
    }
}

/// A walk of the directory tree below a root. The caller reads, one after
/// the other, the directories that the walk names, and feeds it what each
/// holds. Every walk is sound.
pub struct Discovery {
    config: IndexerConfig,
    waiting: Vec<Waiting>,
    awaiting: Option<String>,
    files: Vec<String>,
    failure: Option<DiscoveryError>,
}

impl Discovery {
    #[verifier::type_invariant]
    spec fn is_sound(self) -> bool {
        sound(self.config, state_of(self.waiting@, self.awaiting, self.files@, self.failure))
    }

    /// The configuration of the walk.
    pub closed spec fn config(&self) -> IndexerConfig {
        self.config
    }

    /// The state of the walk.
    pub closed spec fn state(&self) -> WalkState {
        state_of(self.waiting@, self.awaiting, self.files@, self.failure)
    }

    /// Begins a walk at the root directory of `config`.
    pub fn start(config: IndexerConfig) -> (r: Discovery)
        ensures
            r.config() == config,
            r.state() == initial(config),
    {
        let excluded = match path_file_name(config.root_dir.as_str()) {
            Some(name) => config.is_excluded(name.as_str()),
            None => false,
        };
        let awaiting = if excluded {
            None
        } else {
            Some(config.root_dir.clone())
        };
        let waiting: Vec<Waiting> = Vec::new();
        let files: Vec<String> = Vec::new();
        proof {
            assert(pending_of(waiting@) =~= Seq::<PendingEntry>::empty());
            assert(strings_view(files@) =~= Seq::<Seq<char>>::empty());
            lemma_initial_sound(config);
        }
        Discovery { config, waiting, awaiting, files, failure: None }
    }

    /// The directory to read next; `None` when the walk is over.
    pub fn next_directory(&self) -> (r: Option<&str>)
        ensures
            opt_str_view(r) == self.state().awaiting,
    {
        match &self.awaiting {
            Some(dir) => Some(dir.as_str()),
            None => None,
        }
    }

    /// Whether the walk is over.
    pub fn is_finished(&self) -> (r: bool)
        ensures
            r == (self.state().awaiting is None),
    {
        self.awaiting.is_none()
    }

    /// Tells the walk what the directory it waits for holds. A walk that
    /// waits for nothing stays as it is.
    pub fn feed(self, listing: Listing) -> (r: Discovery)
        ensures
            r.config() == self.config(),
            r.state() == after_listing(self.config(), self.state(), listing@),
    {
        proof {
            use_type_invariant(&self);
            lemma_listing_sound(self.config(), self.state(), listing@);
        }
        let Discovery { config, waiting, awaiting, files, failure } = self;
        let dir = match &awaiting {
            Some(dir) => dir.clone(),
            None => {
                return Discovery { config, waiting, awaiting, files, failure };
            },
        };
        match listing {
            Listing::NotADirectory => Discovery::settle(config, waiting, awaiting, files, failure),
            Listing::Unreadable => {
                let none: Vec<Waiting> = Vec::new();
                assert(pending_of(none@) =~= Seq::<PendingEntry>::empty());
                Discovery {
                    config,
                    waiting: none,
                    awaiting: None,
                    files,
                    failure: Some(DiscoveryError::DirectoryUnreadable),
                }
            },
            Listing::Entries(entries) => {
                let ghost listed = entries@;
                let ghost before = pending_of(waiting@);
                let mut entries = entries;
                let mut waiting = waiting;
                while entries.len() > 0
                    invariant
                        entries@ == listed.take(entries@.len() as int),
                        entries@.len() <= listed.len(),
                        pending_of(waiting@) == before + stacked(dir@, listed).take(
                            listed.len() - entries@.len(),
                        ),
                    decreases entries.len(),
                {
                    let ghost shown = pending_of(waiting@);
                    let ghost count = listed.len() - entries@.len();
                    let entry = entries.pop().unwrap();
                    let item = Waiting { dir: dir.clone(), entry };
                    waiting.push(item);
                    assert(item.pending() == stacked(dir@, listed)[count]);
                    assert(pending_of(waiting@) =~= shown + seq![item.pending()]);
                    assert(stacked(dir@, listed).take(count + 1) =~= stacked(dir@, listed).take(
                        count,
                    ) + seq![item.pending()]);
                    assert(entries@ =~= listed.take(entries@.len() as int));
                }
                assert(stacked(dir@, listed).take(listed.len() as int) =~= stacked(dir@, listed));
                Discovery::settle(config, waiting, awaiting, files, failure)
            },
        }
    }

    /// Looks at waiting entries until a directory has to be read.
    fn settle(
        config: IndexerConfig,
        waiting: Vec<Waiting>,
        awaiting: Option<String>,
        files: Vec<String>,
        failure: Option<DiscoveryError>,
    ) -> (r: Discovery)
        requires
            sound(config, settle(config, state_of(waiting@, awaiting, files@, failure))),
        ensures
            r.config() == config,
            r.state() == settle(config, state_of(waiting@, awaiting, files@, failure)),
    {
        let ghost goal = settle(config, state_of(waiting@, awaiting, files@, failure));
        let mut left = waiting;
        let mut found = files;
        loop
            invariant
                sound(config, goal),
                goal == settle(config, state_of(waiting@, awaiting, files@, failure)),
                goal == settle(config, state_of(left@, awaiting, found@, failure)),
            decreases left.len(),
        {
            let ghost state = state_of(left@, awaiting, found@, failure);
            let item = match left.pop() {
                Some(item) => item,
                None => {
                    return Discovery {
                        config,
                        waiting: left,
                        awaiting: None,
                        files: found,
                        failure,
                    };
                },
            };
            proof {
                assert(state.pending.last() == item.pending());
                assert(pending_of(left@) =~= state.pending.drop_last());
            }
            if !is_plain_name(item.entry.name.as_str()) {
                continue ;
            }
            let path = join_path(item.dir.as_str(), item.entry.name.as_str());
            match item.entry.kind {
                EntryKind::Directory => {
                    if !config.is_excluded(item.entry.name.as_str()) {
                        return Discovery {
                            config,
                            waiting: left,
                            awaiting: Some(path),
                            files: found,
                            failure,
                        };
                    }
                },
                EntryKind::File => {
                    match item.entry.size {
                        Some(size) => {
                            if should_index_file(path.as_str(), size, &config) {
                                found.push(path);
                                assert(strings_view(found@) =~= state.files.push(path@));
                            }
                        },
                        None => {
                            let none: Vec<Waiting> = Vec::new();
                            assert(pending_of(none@) =~= Seq::<PendingEntry>::empty());
                            return Discovery {
                                config,
                                waiting: none,
                                awaiting: None,
                                files: found,
                                failure: Some(DiscoveryError::MetadataUnavailable),
                            };
                        },
                    }
                },
                EntryKind::Other => {},
            }
        }
    }

    /// The outcome of a walk: the paths of the files found, in the order in
    /// which they were found, or the error that ended the walk. Every file
    /// found lies below the root and below no excluded directory, and is one
    /// that the configuration admits.
    pub fn finish(self) -> (r: Result<Vec<String>, DiscoveryError>)
        ensures
            match self.state().failure {
                Some(error) => r == Err::<Vec<String>, DiscoveryError>(error),
                None => r matches Ok(files) && strings_view(files@) == self.state().files,
            },
            forall|i: int|
                0 <= i < self.state().files.len() ==> below_root(
                    self.config(),
                    #[trigger] self.state().files[i],
                ) && admitted(self.config(), self.state().files[i]),
    {
        proof {
            use_type_invariant(&self);
        }
        match self.failure {
            Some(error) => Err(error),
            None => Ok(self.files),
        }
    }
}

/// No file found by a sound walk lies in or below an excluded directory:
/// its path begins with the root, the root is not excluded by its name, and
/// no directory segment of the path after the root is the name of an
/// excluded directory.
pub proof fn found_files_avoid_excluded(
    config: IndexerConfig,
    state: WalkState,
    i: int,
    from: int,
    to: int,
)
    requires
        sound(config, state),
        0 <= i < state.files.len(),
        config.root_dir@.len() <= from,
        directory_segment(state.files[i], from, to),
    ensures
        root_admitted(config),
        has_prefix(state.files[i], config.root_dir@),
        !config.excludes(state.files[i].subrange(from, to)),
{
    assert(below_root(config, state.files[i]));
}

} // verus!
