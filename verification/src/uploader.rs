//! The upload queue and the bounded history of recent uploads.

use crate::clock::clock_text;
use crate::clock::timestamp_text;
use crate::paths::components_of;
use crate::paths::display_name;
use crate::paths::is_same_file;
use crate::paths::path_components;
use crate::paths::same_parts;
use crate::paths::file_display_name;
use std::collections::VecDeque;
use vstd::prelude::*;

verus! {

/// How many recent uploads are remembered.
pub const MAX_RECENT: usize = 15;

/// Where an upload stands.
#[derive(Clone, Copy, Debug, PartialEq, Eq, Structural)]
pub enum UploadStatus {
    Success,
    Failed,
    Pending,
    Uploading,
}

/// One line of the upload history, as shown to the user.
#[derive(Debug, PartialEq, Eq)]
pub struct RecentUpload {
    /// File name only, without its directory.
    pub name: String,
    pub status: UploadStatus,
    /// Local wall-clock time at which the file was queued.
    pub timestamp: String,
    /// Human-readable reason of the last failure, if any.
    pub error: Option<String>,
}

/// A file waiting for its next upload attempt.
#[derive(Debug, PartialEq, Eq)]
pub struct QueueItem {
    pub path: String,
    /// Upload attempts that have failed so far.
    pub retries: u32,
}

/// What a [`RecentUpload`] says.
pub struct RecentRecord {
    pub name: Seq<char>,
    pub status: UploadStatus,
    pub timestamp: Seq<char>,
    pub error: Option<Seq<char>>,
}

/// What a [`QueueItem`] says.
pub struct PendingFile {
    pub path: Seq<char>,
    pub retries: nat,
}

/// The whole state of an [`UploadManager`].
pub struct Board {
    /// Pending files, next to upload first.
    pub queue: Seq<PendingFile>,
    /// Upload history, most recent first.
    pub recent: Seq<RecentRecord>,
    pub uploading: bool,
    pub online: bool,
    /// Seconds by which the local time shown in new records lies east of UTC.
    pub utc_offset: int,
}

impl View for RecentUpload {
    type V = RecentRecord;

    open spec fn view(&self) -> RecentRecord {
        RecentRecord {
            name: self.name@,
            status: self.status,
            timestamp: self.timestamp@,
            error: self.error.deep_view(),
        }
    }
}

impl View for QueueItem {
    type V = PendingFile;

    open spec fn view(&self) -> PendingFile {
        PendingFile { path: self.path@, retries: self.retries as nat }
    }
}

impl Clone for RecentUpload {
    fn clone(&self) -> (copy: Self)
        ensures
            copy@ == self@,
    {
        let error = match &self.error {
            Some(text) => Some(text.clone()),
            None => None,
        };
        RecentUpload {
            name: self.name.clone(),
            status: self.status,
            timestamp: self.timestamp.clone(),
            error,
        }
    }
}

impl Clone for QueueItem {
    fn clone(&self) -> (copy: Self)
        ensures
            copy@ == self@,
    {
        QueueItem { path: self.path.clone(), retries: self.retries }
    }
}

/// The record a file gets when it enters the queue.
pub open spec fn pending_record(name: Seq<char>, timestamp: Seq<char>) -> RecentRecord {
    RecentRecord { name, status: UploadStatus::Pending, timestamp, error: None }
}

/// The history after `entry` is put at its head: the list stays within
/// [`MAX_RECENT`] by letting go of its oldest entries.
pub open spec fn with_recent(recent: Seq<RecentRecord>, entry: RecentRecord) -> Seq<RecentRecord> {
    if recent.len() < MAX_RECENT {
        seq![entry] + recent
    } else {
        seq![entry] + recent.take(MAX_RECENT - 1)
    }
}

/// Position of the most recent record named `name`, or the length of the
/// history where there is none.
pub open spec fn position_of(recent: Seq<RecentRecord>, name: Seq<char>) -> int
    decreases recent.len(),
{
    if recent.len() == 0 {
        0
    } else if recent[0].name == name {
        0
    } else {
        1 + position_of(recent.drop_first(), name)
    }
}

/// The history after the most recent record named `name` takes a new status
/// and error. A history without such a record stays as it is.
pub open spec fn with_status(
    recent: Seq<RecentRecord>,
    name: Seq<char>,
    status: UploadStatus,
    error: Option<Seq<char>>,
) -> Seq<RecentRecord> {
    let at = position_of(recent, name);
    if at < recent.len() {
        recent.update(at, RecentRecord { status, error, ..recent[at] })
    } else {
        recent
    }
}

impl Board {
    /// The state of a manager that has seen nothing yet.
    pub open spec fn fresh() -> Board {
        Board {
            queue: Seq::empty(),
            recent: Seq::empty(),
            uploading: false,
            online: true,
            utc_offset: 0,
        }
    }

    /// Whether the file at `path` is waiting in the queue, under this or
    /// another spelling of its path.
    pub open spec fn has_path(self, path: Seq<char>) -> bool {
        exists|i: int|
            0 <= i < self.queue.len() && is_same_file((#[trigger] self.queue[i]).path, path)
    }

    /// No file waits in the queue twice.
    pub open spec fn distinct_paths(self) -> bool {
        forall|i: int, j: int|
            0 <= i < j < self.queue.len() ==> !is_same_file(
                (#[trigger] self.queue[i]).path,
                (#[trigger] self.queue[j]).path,
            )
    }

    /// The state after `path` is offered to the queue under the display name
    /// `name` at wall-clock time `timestamp`.
    pub open spec fn enqueue(self, path: Seq<char>, name: Seq<char>, timestamp: Seq<char>) -> Board {
        if self.has_path(path) {
            self
        } else {
            Board {
                queue: self.queue.push(PendingFile { path, retries: 0 }),
                recent: with_recent(self.recent, pending_record(name, timestamp)),
                ..self
            }
        }
    }

    /// The state after the head of the queue is taken out.
    pub open spec fn dequeue(self) -> Board {
        if self.queue.len() > 0 {
            Board { queue: self.queue.drop_first(), ..self }
        } else {
            self
        }
    }

    /// The state after `item` goes back to the tail with one more failed attempt.
    pub open spec fn reenqueue(self, item: PendingFile) -> Board {
        Board {
            queue: self.queue.push(PendingFile { path: item.path, retries: item.retries + 1 }),
            ..self
        }
    }

    /// The state after the most recent record named `name` takes a new status.
    pub open spec fn set_status(
        self,
        name: Seq<char>,
        status: UploadStatus,
        error: Option<Seq<char>>,
    ) -> Board {
        Board { recent: with_status(self.recent, name, status, error), ..self }
    }
}

/// `position_of` finds a record of that name, and none stands before it.
pub proof fn lemma_position_of(recent: Seq<RecentRecord>, name: Seq<char>)
    ensures
        0 <= position_of(recent, name) <= recent.len(),
        position_of(recent, name) < recent.len() ==> recent[position_of(recent, name)].name == name,
        forall|i: int| 0 <= i < position_of(recent, name) ==> (#[trigger] recent[i]).name != name,
    decreases recent.len(),
{
    if recent.len() > 0 && recent[0].name != name {
        let rest = recent.drop_first();
        lemma_position_of(rest, name);
        assert forall|i: int| 0 <= i < position_of(recent, name) implies (#[trigger] recent[i]).name
            != name by {
            if i > 0 {
                assert(recent[i] == rest[i - 1]);
            }
        }
    }
}

/// A position that holds `name` with no such record before it is the one
/// `position_of` finds.
pub proof fn lemma_position_is(recent: Seq<RecentRecord>, name: Seq<char>, at: int)
    requires
        0 <= at <= recent.len(),
        at < recent.len() ==> recent[at].name == name,
        forall|i: int| 0 <= i < at ==> (#[trigger] recent[i]).name != name,
    ensures
        position_of(recent, name) == at,
    decreases recent.len(),
{
    if recent.len() > 0 && at > 0 {
        let rest = recent.drop_first();
        assert(recent[0].name != name);
        assert forall|i: int| 0 <= i < at - 1 implies (#[trigger] rest[i]).name != name by {
            assert(rest[i] == recent[i + 1]);
        }
        lemma_position_is(rest, name, at - 1);
    }
}

/// Enqueue is idempotent: offering a file that was offered before, and has
/// not been dequeued since, changes nothing, whatever spelling of its path,
/// name and time come with the second offer. In particular the queue keeps
/// its length.
pub proof fn enqueue_is_idempotent(
    board: Board,
    path: Seq<char>,
    name: Seq<char>,
    timestamp: Seq<char>,
    again: Seq<char>,
    later_name: Seq<char>,
    later_timestamp: Seq<char>,
)
    requires
        is_same_file(again, path),
    ensures
        board.enqueue(path, name, timestamp).has_path(again),
        board.enqueue(path, name, timestamp).enqueue(again, later_name, later_timestamp)
            == board.enqueue(path, name, timestamp),
{
    let once = board.enqueue(path, name, timestamp);
    if board.has_path(path) {
        let i = choose|i: int|
            0 <= i < board.queue.len() && is_same_file((#[trigger] board.queue[i]).path, path);
        assert(is_same_file(once.queue[i].path, again));
    } else {
        assert(is_same_file(once.queue[board.queue.len() as int].path, again));
    }
}

/// A path that is offered takes at most one slot: the queue grows by one
/// where the path is new and keeps its length otherwise.
pub proof fn enqueue_adds_at_most_one(
    board: Board,
    path: Seq<char>,
    name: Seq<char>,
    timestamp: Seq<char>,
)
    ensures
        board.has_path(path) ==> board.enqueue(path, name, timestamp).queue == board.queue,
        !board.has_path(path) ==> board.enqueue(path, name, timestamp).queue.len()
            == board.queue.len() + 1,
{
}

/// Enqueue never puts a path into the queue twice.
pub proof fn enqueue_keeps_paths_distinct(
    board: Board,
    path: Seq<char>,
    name: Seq<char>,
    timestamp: Seq<char>,
)
    requires
        board.distinct_paths(),
    ensures
        board.enqueue(path, name, timestamp).distinct_paths(),
{
    let after = board.enqueue(path, name, timestamp);
    if !board.has_path(path) {
        assert forall|i: int, j: int| 0 <= i < j < after.queue.len() implies !is_same_file(
            (#[trigger] after.queue[i]).path,
            (#[trigger] after.queue[j]).path,
        ) by {
            if j == board.queue.len() {
                assert(!is_same_file(board.queue[i].path, path));
            }
        }
    }
}

/// Taking the head out leaves the paths that wait distinct, and the rest in
/// their order.
pub proof fn dequeue_keeps_paths_distinct(board: Board)
    requires
        board.distinct_paths(),
    ensures
        board.dequeue().distinct_paths(),
        board.queue.len() > 0 ==> !board.dequeue().has_path(board.queue[0].path),
{
    let after = board.dequeue();
    if board.queue.len() > 0 {
        assert forall|i: int, j: int| 0 <= i < j < after.queue.len() implies !is_same_file(
            (#[trigger] after.queue[i]).path,
            (#[trigger] after.queue[j]).path,
        ) by {
            assert(after.queue[i] == board.queue[i + 1]);
            assert(after.queue[j] == board.queue[j + 1]);
        }
        assert forall|i: int| 0 <= i < after.queue.len() implies !is_same_file(
            (#[trigger] after.queue[i]).path,
            board.queue[0].path,
        ) by {
            assert(after.queue[i] == board.queue[i + 1]);
        }
    }
}

/// A file that goes back to the tail leaves the paths distinct, provided
/// nothing queued its path again while it was in flight.
pub proof fn reenqueue_keeps_paths_distinct(board: Board, item: PendingFile)
    requires
        board.distinct_paths(),
        !board.has_path(item.path),
    ensures
        board.reenqueue(item).distinct_paths(),
        board.reenqueue(item).queue.last().retries == item.retries + 1,
{
    let after = board.reenqueue(item);
    assert forall|i: int, j: int| 0 <= i < j < after.queue.len() implies !is_same_file(
        (#[trigger] after.queue[i]).path,
        (#[trigger] after.queue[j]).path,
    ) by {
        if j == board.queue.len() {
            assert(!is_same_file(board.queue[i].path, item.path));
        }
    }
}

/// The history never outgrows its capacity, and what it lets go of is its
/// oldest part: the new entry stands first and the entries behind it are the
/// former ones, in their order, as far as there is room.
pub proof fn history_lets_go_of_the_oldest(recent: Seq<RecentRecord>, entry: RecentRecord)
    ensures
        with_recent(recent, entry).len() <= MAX_RECENT,
        with_recent(recent, entry).len() == if recent.len() < MAX_RECENT {
            recent.len() + 1
        } else {
            MAX_RECENT as nat
        },
        with_recent(recent, entry)[0] == entry,
        forall|i: int|
            1 <= i < with_recent(recent, entry).len() ==> #[trigger] with_recent(recent, entry)[i]
                == recent[i - 1],
{
}

/// A status update touches one record at most: the history keeps its length,
/// every record keeps its name and time, and only the most recent record of
/// that name takes the new status and error.
pub proof fn status_update_is_local(
    recent: Seq<RecentRecord>,
    name: Seq<char>,
    status: UploadStatus,
    error: Option<Seq<char>>,
)
    ensures
        with_status(recent, name, status, error).len() == recent.len(),
        forall|i: int|
            0 <= i < recent.len() && i != position_of(recent, name) ==> #[trigger] with_status(
                recent,
                name,
                status,
                error,
            )[i] == recent[i],
        position_of(recent, name) < recent.len() ==> with_status(recent, name, status, error)[position_of(
            recent,
            name,
        )] == (RecentRecord { status, error, ..recent[position_of(recent, name)] }),
        position_of(with_status(recent, name, status, error), name) == position_of(recent, name),
{
    lemma_position_of(recent, name);
    let after = with_status(recent, name, status, error);
    let at = position_of(recent, name);
    assert forall|i: int| 0 <= i < at implies (#[trigger] after[i]).name != name by {
        assert(after[i] == recent[i]);
    }
    lemma_position_is(after, name, at);
}

/// The bounded history of recent uploads, most recent first.
struct History {
    entries: VecDeque<RecentUpload>,
}

impl View for History {
    type V = Seq<RecentRecord>;

    closed spec fn view(&self) -> Seq<RecentRecord> {
        self.entries@.map_values(|entry: RecentUpload| entry@)
    }
}

impl History {
    #[verifier::type_invariant]
    spec fn within_capacity(self) -> bool {
        self.entries@.len() <= MAX_RECENT
    }

    fn new() -> (history: Self)
        ensures
            history@ == Seq::<RecentRecord>::empty(),
    {
        let history = History { entries: VecDeque::new() };
        assert(history@ =~= Seq::empty());
        history
    }

    fn push(&mut self, entry: RecentUpload)
        ensures
            final(self)@ == with_recent(old(self)@, entry@),
    {
        proof {
            use_type_invariant(&*self);
        }
        let mut entries: VecDeque<RecentUpload> = VecDeque::new();
        core::mem::swap(&mut self.entries, &mut entries);
        entries.truncate(MAX_RECENT - 1);
        entries.push_front(entry);
        core::mem::swap(&mut self.entries, &mut entries);
        assert(final(self)@ =~= with_recent(old(self)@, entry@));
    }

    fn set_status(&mut self, name: &str, status: UploadStatus, error: Option<String>)
        ensures
            final(self)@ == with_status(old(self)@, name@, status, error.deep_view()),
    {
        proof {
            use_type_invariant(&*self);
        }
        let wanted = name.to_owned();
        let mut i: usize = 0;
        while i < self.entries.len()
            invariant
                i <= self.entries.len(),
                wanted@ == name@,
                *self == *old(self),
                self.entries@.len() <= MAX_RECENT,
                forall|k: int| 0 <= k < i ==> (#[trigger] self@[k]).name != name@,
            decreases self.entries.len() - i,
        {
            if self.entries[i].name == wanted {
                proof {
                    lemma_position_is(self@, name@, i as int);
                }
                let mut entries: VecDeque<RecentUpload> = VecDeque::new();
                core::mem::swap(&mut self.entries, &mut entries);
                let found = entries.remove(i);
                match found {
                    Some(entry) => {
                        let RecentUpload { name: entry_name, status: _, timestamp, error: _ } = entry;
                        entries.insert(
                            i,
                            RecentUpload { name: entry_name, status, timestamp, error },
                        );
                    },
                    None => {},
                }
                core::mem::swap(&mut self.entries, &mut entries);
                assert(final(self)@ =~= with_status(old(self)@, name@, status, error.deep_view()));
                return ;
            }
            i += 1;
        }
        proof {
            lemma_position_is(self@, name@, self@.len() as int);
        }
    }

    fn snapshot(&self) -> (recent: Vec<RecentUpload>)
        ensures
            recent@.map_values(|entry: RecentUpload| entry@) == self@,
            recent.len() <= MAX_RECENT,
    {
        proof {
            use_type_invariant(self);
        }
        let mut recent: Vec<RecentUpload> = Vec::new();
        let mut i: usize = 0;
        while i < self.entries.len()
            invariant
                i <= self.entries.len(),
                recent.len() == i,
                forall|k: int| 0 <= k < i ==> (#[trigger] recent@[k])@ == self@[k],
            decreases self.entries.len() - i,
        {
            recent.push(self.entries[i].clone());
            i += 1;
        }
        assert(recent@.map_values(|entry: RecentUpload| entry@) =~= self@);
        recent
    }
}

/// Shared upload state: the queue of pending files, the history of recent
/// uploads, and the two flags shown to the user.
pub struct UploadManager {
    queue: VecDeque<QueueItem>,
    recent: History,
    is_uploading: bool,
    is_online: bool,
    utc_offset_secs: i32,
}

impl View for UploadManager {
    type V = Board;

    closed spec fn view(&self) -> Board {
        Board {
            queue: self.queue@.map_values(|item: QueueItem| item@),
            recent: self.recent@,
            uploading: self.is_uploading,
            online: self.is_online,
            utc_offset: self.utc_offset_secs as int,
        }
    }
}

impl UploadManager {
    /// An empty manager: nothing queued, nothing uploaded, presumed online,
    /// and showing times in UTC.
    pub fn new() -> (manager: Self)
        ensures
            manager@ == Board::fresh(),
    {
        let manager = UploadManager {
            queue: VecDeque::new(),
            recent: History::new(),
            is_uploading: false,
            is_online: true,
            utc_offset_secs: 0,
        };
        assert(manager@.queue =~= Seq::empty());
        manager
    }

    /// Whether the file at `path` is waiting in the queue, under this or
    /// another spelling of its path.
    pub fn is_queued(&self, path: &String) -> (queued: bool)
        ensures
            queued == self@.has_path(path@),
    {
        let wanted = components_of(path.as_str());
        let mut i: usize = 0;
        while i < self.queue.len()
            invariant
                i <= self.queue.len(),
                wanted.deep_view() == path_components(path@),
                forall|k: int| 0 <= k < i ==> !is_same_file((#[trigger] self@.queue[k]).path, path@),
            decreases self.queue.len() - i,
        {
            let parts = components_of(self.queue[i].path.as_str());
            if same_parts(&parts, &wanted) {
                assert(is_same_file(self@.queue[i as int].path, path@));
                return true;
            }
            i += 1;
        }
        false
    }

    /// Adds a file to the upload queue, unless it already waits there. A file
    /// that is added also gets a pending record at the head of the history,
    /// under its file name and the current local time, or the mark for an
    /// unknown time where the clock cannot be read.
    pub fn enqueue(&mut self, path: String)
        ensures
            old(self)@.has_path(path@) ==> final(self)@ == old(self)@,
            !old(self)@.has_path(path@) ==> final(self)@ == old(self)@.enqueue(
                path@,
                display_name(path@),
                final(self)@.recent[0].timestamp,
            ),
    {
        if self.is_queued(&path) {
            return ;
        }
        let name = file_display_name(path.as_str());
        let timestamp = timestamp_text(clock_text(self.utc_offset_secs));
        self.enqueue_entry(path, name, timestamp);
    }

    /// Adds a file to the upload queue under the given display name and
    /// timestamp, unless its path already waits there.
    pub fn enqueue_entry(&mut self, path: String, name: String, timestamp: String)
        ensures
            final(self)@ == old(self)@.enqueue(path@, name@, timestamp@),
    {
        if self.is_queued(&path) {
            return ;
        }
        self.recent.push(
            RecentUpload { name, status: UploadStatus::Pending, timestamp, error: None },
        );
        self.queue.push_back(QueueItem { path, retries: 0 });
        assert(final(self)@.queue =~= old(self)@.queue.push(PendingFile { path: path@, retries: 0 }));
    }

    /// Takes the next pending file out of the queue, if there is one.
    pub fn dequeue_next(&mut self) -> (next: Option<QueueItem>)
        ensures
            final(self)@ == old(self)@.dequeue(),
            match next {
                Some(item) => old(self)@.queue.len() > 0 && item@ == old(self)@.queue[0],
                None => old(self)@.queue.len() == 0,
            },
    {
        let next = self.queue.pop_front();
        assert(final(self)@.queue =~= old(self)@.dequeue().queue);
        next
    }

    /// Puts a file whose upload failed back at the tail of the queue, with the
    /// failure counted.
    pub fn reenqueue(&mut self, item: QueueItem)
        requires
            item.retries < u32::MAX,
        ensures
            final(self)@ == old(self)@.reenqueue(item@),
    {
        let QueueItem { path, retries } = item;
        self.queue.push_back(QueueItem { path, retries: retries + 1 });
        assert(final(self)@.queue =~= old(self)@.reenqueue(item@).queue);
    }

    /// Number of files waiting in the queue.
    pub fn queue_size(&self) -> (size: usize)
        ensures
            size == self@.queue.len(),
    {
        self.queue.len()
    }

    /// Whether an upload is in flight.
    pub fn is_uploading(&self) -> (uploading: bool)
        ensures
            uploading == self@.uploading,
    {
        self.is_uploading
    }

    /// Marks whether an upload is in flight.
    pub(crate) fn set_uploading(&mut self, uploading: bool)
        ensures
            final(self)@ == (Board { uploading, ..old(self)@ }),
    {
        self.is_uploading = uploading;
    }

    /// The upload history, most recent first. It never holds more than
    /// [`MAX_RECENT`] records.
    pub fn get_recent(&self) -> (recent: Vec<RecentUpload>)
        ensures
            recent@.map_values(|entry: RecentUpload| entry@) == self@.recent,
            recent.len() <= MAX_RECENT,
    {
        self.recent.snapshot()
    }

    /// Whether the server was reachable at the last probe.
    pub fn is_online(&self) -> (online: bool)
        ensures
            online == self@.online,
    {
        self.is_online
    }

    /// Sets the seconds by which local time lies east of UTC. New records
    /// show the time of day shifted by as much.
    pub fn set_utc_offset(&mut self, seconds: i32)
        ensures
            final(self)@ == (Board { utc_offset: seconds as int, ..old(self)@ }),
    {
        self.utc_offset_secs = seconds;
    }

    /// Records whether the server is reachable.
    pub fn set_online(&mut self, online: bool)
        ensures
            final(self)@ == (Board { online, ..old(self)@ }),
    {
        self.is_online = online;
    }

    /// Puts `entry` at the head of the history and lets go of the oldest
    /// records beyond [`MAX_RECENT`].
    pub fn add_recent(&mut self, entry: RecentUpload)
        ensures
            final(self)@ == (Board { recent: with_recent(old(self)@.recent, entry@), ..old(self)@ }),
    {
        self.recent.push(entry);
    }

    /// Gives the most recent record named `name` a new status and clears its error.
    pub fn update_recent_status(&mut self, name: &str, status: UploadStatus)
        ensures
            final(self)@ == old(self)@.set_status(name@, status, None),
    {
        self.update_recent_status_with_error(name, status, None);
    }

    /// Gives the most recent record named `name` a new status and error. A
    /// history without such a record stays as it is.
    pub fn update_recent_status_with_error(
        &mut self,
        name: &str,
        status: UploadStatus,
        error: Option<String>,
    )
        ensures
            final(self)@ == old(self)@.set_status(name@, status, error.deep_view()),
    {
        self.recent.set_status(name, status, error);
    }
}

} // verus!
