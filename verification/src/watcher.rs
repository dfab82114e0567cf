//! What the folder watcher decides: which entries are candidates, when a
//! file has been written completely, and what reaches the upload queue.

use crate::filter::ignores;
use crate::filter::should_ignore;
use crate::paths::display_name;
use crate::paths::parent_of;
use crate::paths::is_same_file;
use crate::paths::path_parent;
use crate::paths::same_file;
use crate::uploader::UploadManager;
use vstd::prelude::*;
use vstd::string::StringExecFns;

verus! {

/// Seconds over which bursts of change notifications collapse into one.
pub const DEBOUNCE_SECS: u64 = 2;

/// Milliseconds between the two size samples of the readiness probe.
pub const PROBE_INTERVAL_MILLIS: u64 = 500;

/// An entry of the inbox folder, with what the filesystem says of it.
#[derive(Debug, PartialEq, Eq)]
pub struct InboxEntry {
    pub path: String,
    pub is_dir: bool,
    pub is_file: bool,
}

/// What an [`InboxEntry`] says.
pub struct Entry {
    pub path: Seq<char>,
    pub is_dir: bool,
    pub is_file: bool,
}

impl View for InboxEntry {
    type V = Entry;

    open spec fn view(&self) -> Entry {
        Entry { path: self.path@, is_dir: self.is_dir, is_file: self.is_file }
    }
}

/// The kind of a debounced change notification.
#[derive(Clone, Copy, Debug, PartialEq, Eq, Structural)]
pub enum ChangeKind {
    /// Changes were seen, and none since the debounce window closed.
    Settled,
    /// Changes are still coming in.
    Continuous,
}

/// Why the inbox folder cannot be watched. The watch subsystem does not
/// recover from either by itself.
#[derive(Debug, PartialEq, Eq)]
pub enum WatchError {
    /// The watcher itself could not be created.
    Create { reason: String },
    /// The folder could not be subscribed to.
    Watch { reason: String },
}

/// What a [`WatchError`] says.
pub enum WatchFailure {
    Create { reason: Seq<char> },
    Watch { reason: Seq<char> },
}

impl View for WatchError {
    type V = WatchFailure;

    open spec fn view(&self) -> WatchFailure {
        match self {
            WatchError::Create { reason } => WatchFailure::Create { reason: reason@ },
            WatchError::Watch { reason } => WatchFailure::Watch { reason: reason@ },
        }
    }
}

/// The text reported for a watch failure.
pub open spec fn watch_failure_message(failure: WatchFailure) -> Seq<char> {
    match failure {
        WatchFailure::Create { reason } => "Failed to create file watcher: "@ + reason,
        WatchFailure::Watch { reason } => "Failed to watch folder: "@ + reason,
    }
}

impl WatchError {
    /// The text reported for this failure.
    pub fn message(&self) -> (text: String)
        ensures
            text@ == watch_failure_message(self@),
    {
        match self {
            WatchError::Create { reason } => String::from_str(
                "Failed to create file watcher: ",
            ).concat(reason.as_str()),
            WatchError::Watch { reason } => String::from_str("Failed to watch folder: ").concat(
                reason.as_str(),
            ),
        }
    }
}

/// A file is ready when both samples of its size could be taken, agree, and
/// are not zero.
pub open spec fn sizes_ready(first: Option<u64>, second: Option<u64>) -> bool {
    match (first, second) {
        (Some(a), Some(b)) => a == b && a > 0,
        _ => false,
    }
}

/// An entry is a candidate for upload when it is a plain file that the
/// ignore filter lets through.
pub open spec fn is_candidate(entry: Entry) -> bool {
    !ignores(entry.path, entry.is_dir) && entry.is_file
}

/// The paths of the candidates among `entries`, in their order.
pub open spec fn candidates(entries: Seq<Entry>) -> Seq<Seq<char>>
    decreases entries.len(),
{
    if entries.len() == 0 {
        Seq::empty()
    } else if is_candidate(entries.last()) {
        candidates(entries.drop_last()).push(entries.last().path)
    } else {
        candidates(entries.drop_last())
    }
}

/// A change notification is followed up when it has settled and names a
/// candidate that lies directly inside the watched folder.
pub open spec fn is_watched_candidate(kind: ChangeKind, entry: Entry, inbox_path: Seq<char>) -> bool {
    &&& kind == ChangeKind::Settled
    &&& is_candidate(entry)
    &&& match path_parent(entry.path) {
        Some(parent) => is_same_file(parent, inbox_path),
        None => false,
    }
}

/// A file whose two size samples differ is not ready, and neither is one
/// that holds no bytes or could not be sampled.
pub proof fn changing_file_is_not_ready(first: Option<u64>, second: Option<u64>)
    requires
        first != second || first is None || first == Some(0u64),
    ensures
        !sizes_ready(first, second),
{
}

/// Judges whether a file has been written completely, from two samples of
/// its size taken [`PROBE_INTERVAL_MILLIS`] apart. `None` stands for a
/// sample that could not be taken.
pub fn is_file_ready(first_size: Option<u64>, second_size: Option<u64>) -> (ready: bool)
    ensures
        ready == sizes_ready(first_size, second_size),
{
    match (first_size, second_size) {
        (Some(a), Some(b)) => a == b && a > 0,
        _ => false,
    }
}

/// Picks the files to upload among the entries found in the inbox at
/// startup. Files found at rest are taken to be complete: only the ignore
/// filter is applied.
pub fn scan_existing_files(entries: &Vec<InboxEntry>) -> (files: Vec<String>)
    ensures
        files.deep_view() == candidates(entries@.map_values(|e: InboxEntry| e@)),
{
    let ghost all = entries@.map_values(|e: InboxEntry| e@);
    let mut files: Vec<String> = Vec::new();
    let mut i: usize = 0;
    assert(all.take(0) =~= Seq::empty());
    assert(files.deep_view() =~= Seq::empty());
    while i < entries.len()
        invariant
            i <= entries.len(),
            all == entries@.map_values(|e: InboxEntry| e@),
            files.deep_view() == candidates(all.take(i as int)),
        decreases entries.len() - i,
    {
        let entry = &entries[i];
        let ghost before = files.deep_view();
        assert(all.take(i + 1).drop_last() =~= all.take(i as int));
        assert(all.take(i + 1).last() == entry@);
        if !should_ignore(entry.path.as_str(), entry.is_dir) && entry.is_file {
            files.push(entry.path.clone());
            assert(files.deep_view() =~= before.push(entry.path@));
        }
        i += 1;
    }
    assert(all.take(i as int) =~= all);
    files
}

/// Whether a change notification is to be followed up with a readiness
/// probe of the file it names.
pub fn is_candidate_event(kind: ChangeKind, entry: &InboxEntry, inbox_path: &str) -> (follow: bool)
    ensures
        follow == is_watched_candidate(kind, entry@, inbox_path@),
{
    if kind != ChangeKind::Settled {
        return false;
    }
    if should_ignore(entry.path.as_str(), entry.is_dir) || !entry.is_file {
        return false;
    }
    match parent_of(entry.path.as_str()) {
        Some(parent) => same_file(parent.as_str(), inbox_path),
        None => false,
    }
}

/// The end of the live watch path: a file that was probed goes to the upload
/// queue if, and only if, the probe found it ready.
pub fn deliver_probed(
    manager: &mut UploadManager,
    path: String,
    first_size: Option<u64>,
    second_size: Option<u64>,
) -> (delivered: bool)
    ensures
        delivered == sizes_ready(first_size, second_size),
        !delivered || old(manager)@.has_path(path@) ==> final(manager)@ == old(manager)@,
        delivered && !old(manager)@.has_path(path@) ==> final(manager)@ == old(manager)@.enqueue(
            path@,
            display_name(path@),
            final(manager)@.recent[0].timestamp,
        ),
{
    if is_file_ready(first_size, second_size) {
        manager.enqueue(path);
        true
    } else {
        false
    }
}

} // verus!
