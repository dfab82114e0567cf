//! The upload worker, as a state machine.
//!
//! The worker handles one file at a time. It never touches the disk, the
//! network or a timer itself: [`Worker::step`] takes what the caller has just
//! observed and answers with the one thing to do next. The caller carries that
//! out and comes back with the outcome.

use crate::backoff::backoff_delay;
use crate::backoff::retry_delay_secs;
use crate::backoff::MAX_RETRIES;
use crate::config::archive_folder;
use crate::config::uploaded_subfolder;
use crate::endpoints::health_address;
use crate::endpoints::health_url;
use crate::errors::humanize_error;
use crate::errors::humanized;
use crate::paths::display_name;
use crate::paths::file_display_name;
use crate::paths::join_path;
use crate::paths::path_join;
use crate::text::decimal;
use crate::text::decimal_text;
use crate::uploader::Board;
use crate::uploader::PendingFile;
use crate::uploader::QueueItem;
use crate::uploader::UploadManager;
use crate::uploader::UploadStatus;
use crate::validation::rejection_message;
use crate::validation::size_verdict;
use crate::validation::validate_size;
use crate::validation::Rejection;
use crate::validation::ValidationError;
use vstd::prelude::*;
use vstd::string::StringExecFns;

verus! {

/// Seconds for which a probe of the server stays fresh.
pub const HEALTH_CHECK_INTERVAL_SECS: u64 = 30;

/// Seconds to wait before probing again while the server is unreachable.
pub const OFFLINE_WAIT_SECS: u64 = 15;

/// Seconds to wait before looking at an empty queue again.
pub const IDLE_WAIT_SECS: u64 = 2;

/// What the caller observed since the last step.
#[derive(Debug, PartialEq, Eq)]
pub enum WorkerEvent {
    /// The worker has just been started, or did what the last action asked
    /// for and nothing is left to report. `now` is the reading of a
    /// monotonic clock, in seconds.
    Ready { now: u64 },
    /// The health probe came back at time `now`.
    Probed { online: bool, now: u64 },
    /// The file's metadata was read: it holds `size` bytes.
    Inspected { size: u64 },
    /// The file's metadata could not be read.
    Unreadable { reason: String },
    /// The server accepted the file.
    Uploaded,
    /// The upload failed, with the raw failure text.
    UploadFailed { error: String },
    /// The uploaded file was deleted or archived, or the attempt to do so failed.
    Disposed,
}

/// What the caller is to do next.
#[derive(Debug, PartialEq, Eq)]
pub enum WorkerAction {
    /// Probe the health endpoint at `url`, then report [`WorkerEvent::Probed`].
    Probe { url: String },
    /// Sleep for `seconds`, then report [`WorkerEvent::Ready`].
    Wait { seconds: u64 },
    /// Report [`WorkerEvent::Ready`] at once.
    Continue,
    /// Read the size of the file at `path`, then report
    /// [`WorkerEvent::Inspected`] or [`WorkerEvent::Unreadable`].
    Inspect { path: String },
    /// Upload the file at `path`, then report [`WorkerEvent::Uploaded`] or
    /// [`WorkerEvent::UploadFailed`].
    Upload { path: String },
    /// Delete the file at `path`, then report [`WorkerEvent::Disposed`].
    Delete { path: String },
    /// Create `folder` if need be and move the file at `path` to
    /// `destination`, then report [`WorkerEvent::Disposed`].
    Archive { path: String, folder: String, destination: String },
}

/// What a [`WorkerEvent`] says.
pub enum Event {
    Ready { now: nat },
    Probed { online: bool, now: nat },
    Inspected { size: nat },
    Unreadable { reason: Seq<char> },
    Uploaded,
    UploadFailed { error: Seq<char> },
    Disposed,
}

/// What a [`WorkerAction`] says.
pub enum Action {
    Probe { url: Seq<char> },
    Wait { seconds: nat },
    Continue,
    Inspect { path: Seq<char> },
    Upload { path: Seq<char> },
    Delete { path: Seq<char> },
    Archive { path: Seq<char>, folder: Seq<char>, destination: Seq<char> },
}

impl View for WorkerEvent {
    type V = Event;

    open spec fn view(&self) -> Event {
        match self {
            WorkerEvent::Ready { now } => Event::Ready { now: *now as nat },
            WorkerEvent::Probed { online, now } => Event::Probed {
                online: *online,
                now: *now as nat,
            },
            WorkerEvent::Inspected { size } => Event::Inspected { size: *size as nat },
            WorkerEvent::Unreadable { reason } => Event::Unreadable { reason: reason@ },
            WorkerEvent::Uploaded => Event::Uploaded,
            WorkerEvent::UploadFailed { error } => Event::UploadFailed { error: error@ },
            WorkerEvent::Disposed => Event::Disposed,
        }
    }
}

impl View for WorkerAction {
    type V = Action;

    open spec fn view(&self) -> Action {
        match self {
            WorkerAction::Probe { url } => Action::Probe { url: url@ },
            WorkerAction::Wait { seconds } => Action::Wait { seconds: *seconds as nat },
            WorkerAction::Continue => Action::Continue,
            WorkerAction::Inspect { path } => Action::Inspect { path: path@ },
            WorkerAction::Upload { path } => Action::Upload { path: path@ },
            WorkerAction::Delete { path } => Action::Delete { path: path@ },
            WorkerAction::Archive { path, folder, destination } => Action::Archive {
                path: path@,
                folder: folder@,
                destination: destination@,
            },
        }
    }
}

/// Where the worker stands with the file in its hands, if it holds one.
pub enum Stage {
    /// Between files: waiting, or about to start a round.
    Idle,
    /// Waiting for the health probe.
    Probing,
    /// Waiting for the size of the file.
    Validating(PendingFile),
    /// Waiting for the upload of the file to end.
    Uploading(PendingFile),
    /// Waiting for the uploaded file to be deleted or archived.
    Disposing,
}

/// The whole state of a [`Worker`].
pub struct WorkerState {
    pub server_url: Seq<char>,
    pub delete_after_upload: bool,
    pub inbox_path: Seq<char>,
    /// Time of the last health probe that still counts; `None` asks for a
    /// probe at the start of the next round.
    pub last_probe: Option<nat>,
    pub stage: Stage,
}

/// The note a record carries while its file waits for another attempt.
pub open spec fn retry_message(attempt: nat, reason: Seq<char>) -> Seq<char> {
    "Reintentando ("@ + decimal(attempt) + "/"@ + decimal(MAX_RETRIES as nat) + "): "@ + reason
}

/// Whether the server has to be probed before the next file is taken.
pub open spec fn probe_due(last_probe: Option<nat>, now: nat) -> bool {
    match last_probe {
        None => true,
        Some(at) => now >= at + HEALTH_CHECK_INTERVAL_SECS,
    }
}

impl WorkerState {
    /// The state of a worker that has done nothing yet.
    pub open spec fn initial(
        server_url: Seq<char>,
        delete_after_upload: bool,
        inbox_path: Seq<char>,
    ) -> WorkerState {
        WorkerState {
            server_url,
            delete_after_upload,
            inbox_path,
            last_probe: None,
            stage: Stage::Idle,
        }
    }

    /// What is done with a file once it is uploaded: it is deleted, or moved
    /// to the archive folder under its own name. Never both.
    pub open spec fn disposal(self, path: Seq<char>) -> Action {
        if self.delete_after_upload {
            Action::Delete { path }
        } else {
            Action::Archive {
                path,
                folder: archive_folder(self.inbox_path),
                destination: path_join(archive_folder(self.inbox_path), display_name(path)),
            }
        }
    }

    /// Takes the next file from the queue and asks for its size; waits where
    /// the queue is empty.
    pub open spec fn take_next(self, board: Board) -> (WorkerState, Board, Action) {
        if board.queue.len() == 0 {
            (
                WorkerState { stage: Stage::Idle, ..self },
                board,
                Action::Wait { seconds: IDLE_WAIT_SECS as nat },
            )
        } else {
            let file = board.queue[0];
            (
                WorkerState { stage: Stage::Validating(file), ..self },
                (Board { uploading: true, ..board.dequeue() }).set_status(
                    display_name(file.path),
                    UploadStatus::Uploading,
                    None,
                ),
                Action::Inspect { path: file.path },
            )
        }
    }

    /// Starts a round: probes the server where the last probe is stale, and
    /// takes the next file otherwise.
    pub open spec fn begin_round(self, board: Board, now: nat) -> (WorkerState, Board, Action) {
        if probe_due(self.last_probe, now) {
            (
                WorkerState { stage: Stage::Probing, ..self },
                board,
                Action::Probe { url: health_address(self.server_url) },
            )
        } else {
            self.take_next(board)
        }
    }

    /// Records the outcome of a probe. Online, the probe counts for the next
    /// [`HEALTH_CHECK_INTERVAL_SECS`] and the worker takes the next file.
    /// Offline, the queue is left alone, the worker waits, and the round
    /// after the wait probes again.
    pub open spec fn after_probe(self, board: Board, online: bool, now: nat) -> (
        WorkerState,
        Board,
        Action,
    ) {
        let seen = Board { online, ..board };
        if online {
            (WorkerState { last_probe: Some(now), ..self }).take_next(seen)
        } else {
            (
                WorkerState { last_probe: None, stage: Stage::Idle, ..self },
                seen,
                Action::Wait { seconds: OFFLINE_WAIT_SECS as nat },
            )
        }
    }

    /// Gives up a file that did not pass validation: its record fails with
    /// the reason and it is not queued again.
    pub open spec fn after_rejection(self, board: Board, file: PendingFile, rejection: Rejection) -> (
        WorkerState,
        Board,
        Action,
    ) {
        (
            WorkerState { stage: Stage::Idle, ..self },
            (Board { uploading: false, ..board }).set_status(
                display_name(file.path),
                UploadStatus::Failed,
                Some(rejection_message(rejection)),
            ),
            Action::Continue,
        )
    }

    /// Acts on the size of the file: a file that passes is uploaded, any
    /// other is given up.
    pub open spec fn after_inspection(self, board: Board, file: PendingFile, size: nat) -> (
        WorkerState,
        Board,
        Action,
    ) {
        match size_verdict(size) {
            None => (
                WorkerState { stage: Stage::Uploading(file), ..self },
                board,
                Action::Upload { path: file.path },
            ),
            Some(rejection) => self.after_rejection(board, file, rejection),
        }
    }

    /// Records a successful upload and asks for the file to be disposed of.
    pub open spec fn after_success(self, board: Board, file: PendingFile) -> (
        WorkerState,
        Board,
        Action,
    ) {
        (
            WorkerState { stage: Stage::Disposing, ..self },
            board.set_status(display_name(file.path), UploadStatus::Success, None),
            self.disposal(file.path),
        )
    }

    /// Ends the handling of an uploaded file.
    pub open spec fn after_disposal(self, board: Board) -> (WorkerState, Board, Action) {
        (
            WorkerState { stage: Stage::Idle, ..self },
            Board { uploading: false, ..board },
            Action::Continue,
        )
    }

    /// Records a failed upload. The next round will probe the server first.
    /// While the file has attempts left it goes back to the tail of the queue
    /// and the worker waits out the backoff delay; after the last attempt the
    /// file is given up for good.
    pub open spec fn after_failure(self, board: Board, file: PendingFile, error: Seq<char>) -> (
        WorkerState,
        Board,
        Action,
    ) {
        let rested = WorkerState { last_probe: None, stage: Stage::Idle, ..self };
        let released = Board { uploading: false, ..board };
        let attempt = file.retries + 1;
        if attempt < MAX_RETRIES {
            (
                rested,
                released.set_status(
                    display_name(file.path),
                    UploadStatus::Pending,
                    Some(retry_message(attempt, humanized(error))),
                ).reenqueue(file),
                Action::Wait { seconds: backoff_delay(attempt) },
            )
        } else {
            (
                rested,
                released.set_status(
                    display_name(file.path),
                    UploadStatus::Failed,
                    Some(humanized(error)),
                ),
                Action::Continue,
            )
        }
    }

    /// One step of the worker: the state and the action that follow from an
    /// event, or `None` where the worker is not waiting for that event.
    pub open spec fn step(self, board: Board, event: Event) -> Option<(WorkerState, Board, Action)> {
        match (self.stage, event) {
            (Stage::Idle, Event::Ready { now }) => Some(self.begin_round(board, now)),
            (Stage::Probing, Event::Probed { online, now }) => Some(
                self.after_probe(board, online, now),
            ),
            (Stage::Validating(file), Event::Inspected { size }) => Some(
                self.after_inspection(board, file, size),
            ),
            (Stage::Validating(file), Event::Unreadable { reason }) => Some(
                self.after_rejection(board, file, Rejection::Unreadable { reason }),
            ),
            (Stage::Uploading(file), Event::Uploaded) => Some(self.after_success(board, file)),
            (Stage::Uploading(file), Event::UploadFailed { error }) => Some(
                self.after_failure(board, file, error),
            ),
            (Stage::Disposing, Event::Disposed) => Some(self.after_disposal(board)),
            _ => None,
        }
    }
}

enum WorkerStage {
    Idle,
    Probing,
    Validating(QueueItem),
    Uploading(QueueItem),
    Disposing,
}

impl View for WorkerStage {
    type V = Stage;

    closed spec fn view(&self) -> Stage {
        match self {
            WorkerStage::Idle => Stage::Idle,
            WorkerStage::Probing => Stage::Probing,
            WorkerStage::Validating(item) => Stage::Validating(item@),
            WorkerStage::Uploading(item) => Stage::Uploading(item@),
            WorkerStage::Disposing => Stage::Disposing,
        }
    }
}

/// The single upload worker of the pipeline.
pub struct Worker {
    server_url: String,
    delete_after_upload: bool,
    inbox_path: String,
    last_probe: Option<u64>,
    stage: WorkerStage,
}

impl View for Worker {
    type V = WorkerState;

    closed spec fn view(&self) -> WorkerState {
        WorkerState {
            server_url: self.server_url@,
            delete_after_upload: self.delete_after_upload,
            inbox_path: self.inbox_path@,
            last_probe: match self.last_probe {
                Some(at) => Some(at as nat),
                None => None,
            },
            stage: self.stage@,
        }
    }
}

/// The note a record carries while its file waits for another attempt.
pub fn retry_note(attempt: u32, reason: &str) -> (note: String)
    ensures
        note@ == retry_message(attempt as nat, reason@),
{
    let tried = decimal_text(attempt as u64);
    let budget = decimal_text(MAX_RETRIES as u64);
    String::from_str("Reintentando (").concat(tried.as_str()).concat("/").concat(
        budget.as_str(),
    ).concat("): ").concat(reason)
}

impl Worker {
    /// A worker for the server at `server_url` that has done nothing yet. Its
    /// first round starts with a health probe.
    pub fn new(server_url: String, delete_after_upload: bool, inbox_path: String) -> (worker: Self)
        ensures
            worker@ == WorkerState::initial(server_url@, delete_after_upload, inbox_path@),
    {
        Worker {
            server_url,
            delete_after_upload,
            inbox_path,
            last_probe: None,
            stage: WorkerStage::Idle,
        }
    }

    fn probe_is_due(&self, now: u64) -> (due: bool)
        ensures
            due == probe_due(self@.last_probe, now as nat),
    {
        match self.last_probe {
            None => true,
            Some(at) => now >= at && now - at >= HEALTH_CHECK_INTERVAL_SECS,
        }
    }

    fn disposal_of(&self, path: &String) -> (action: WorkerAction)
        ensures
            action@ == self@.disposal(path@),
    {
        if self.delete_after_upload {
            WorkerAction::Delete { path: path.clone() }
        } else {
            let folder = uploaded_subfolder(self.inbox_path.as_str());
            let name = file_display_name(path.as_str());
            let destination = join_path(folder.as_str(), name.as_str());
            WorkerAction::Archive { path: path.clone(), folder, destination }
        }
    }

    fn take_next(&mut self, manager: &mut UploadManager) -> (action: WorkerAction)
        ensures
            (final(self)@, final(manager)@, action@) == old(self)@.take_next(old(manager)@),
    {
        match manager.dequeue_next() {
            None => {
                self.stage = WorkerStage::Idle;
                WorkerAction::Wait { seconds: IDLE_WAIT_SECS }
            },
            Some(item) => {
                let name = file_display_name(item.path.as_str());
                manager.set_uploading(true);
                manager.update_recent_status(name.as_str(), UploadStatus::Uploading);
                let path = item.path.clone();
                self.stage = WorkerStage::Validating(item);
                WorkerAction::Inspect { path }
            },
        }
    }

    fn begin_round(&mut self, manager: &mut UploadManager, now: u64) -> (action: WorkerAction)
        ensures
            (final(self)@, final(manager)@, action@) == old(self)@.begin_round(
                old(manager)@,
                now as nat,
            ),
    {
        if self.probe_is_due(now) {
            self.stage = WorkerStage::Probing;
            WorkerAction::Probe { url: health_url(self.server_url.as_str()) }
        } else {
            self.take_next(manager)
        }
    }

    fn after_probe(&mut self, manager: &mut UploadManager, online: bool, now: u64) -> (action:
        WorkerAction)
        ensures
            (final(self)@, final(manager)@, action@) == old(self)@.after_probe(
                old(manager)@,
                online,
                now as nat,
            ),
    {
        manager.set_online(online);
        if online {
            self.last_probe = Some(now);
            self.take_next(manager)
        } else {
            self.last_probe = None;
            self.stage = WorkerStage::Idle;
            WorkerAction::Wait { seconds: OFFLINE_WAIT_SECS }
        }
    }

    fn after_rejection(
        &mut self,
        manager: &mut UploadManager,
        item: QueueItem,
        rejection: ValidationError,
    ) -> (action: WorkerAction)
        ensures
            (final(self)@, final(manager)@, action@) == old(self)@.after_rejection(
                old(manager)@,
                item@,
                rejection@,
            ),
    {
        let name = file_display_name(item.path.as_str());
        manager.update_recent_status_with_error(
            name.as_str(),
            UploadStatus::Failed,
            Some(rejection.message()),
        );
        manager.set_uploading(false);
        self.stage = WorkerStage::Idle;
        WorkerAction::Continue
    }

    fn after_inspection(&mut self, manager: &mut UploadManager, item: QueueItem, size: u64) -> (action:
        WorkerAction)
        ensures
            (final(self)@, final(manager)@, action@) == old(self)@.after_inspection(
                old(manager)@,
                item@,
                size as nat,
            ),
    {
        match validate_size(size) {
            Ok(_) => {
                let path = item.path.clone();
                self.stage = WorkerStage::Uploading(item);
                WorkerAction::Upload { path }
            },
            Err(rejection) => self.after_rejection(manager, item, rejection),
        }
    }

    fn after_success(&mut self, manager: &mut UploadManager, item: QueueItem) -> (action:
        WorkerAction)
        ensures
            (final(self)@, final(manager)@, action@) == old(self)@.after_success(
                old(manager)@,
                item@,
            ),
    {
        let name = file_display_name(item.path.as_str());
        manager.update_recent_status(name.as_str(), UploadStatus::Success);
        self.stage = WorkerStage::Disposing;
        self.disposal_of(&item.path)
    }

    fn after_disposal(&mut self, manager: &mut UploadManager) -> (action: WorkerAction)
        ensures
            (final(self)@, final(manager)@, action@) == old(self)@.after_disposal(old(manager)@),
    {
        manager.set_uploading(false);
        self.stage = WorkerStage::Idle;
        WorkerAction::Continue
    }

    fn after_failure(&mut self, manager: &mut UploadManager, item: QueueItem, error: String) -> (action:
        WorkerAction)
        ensures
            (final(self)@, final(manager)@, action@) == old(self)@.after_failure(
                old(manager)@,
                item@,
                error@,
            ),
    {
        let name = file_display_name(item.path.as_str());
        let reason = humanize_error(error.as_str());
        self.last_probe = None;
        self.stage = WorkerStage::Idle;
        manager.set_uploading(false);
        if item.retries < MAX_RETRIES - 1 {
            let attempt: u32 = item.retries + 1;
            manager.update_recent_status_with_error(
                name.as_str(),
                UploadStatus::Pending,
                Some(retry_note(attempt, reason.as_str())),
            );
            manager.reenqueue(item);
            WorkerAction::Wait { seconds: retry_delay_secs(attempt) }
        } else {
            manager.update_recent_status_with_error(
                name.as_str(),
                UploadStatus::Failed,
                Some(reason),
            );
            WorkerAction::Continue
        }
    }

    /// Takes one step: records what `event` means for the file in hand and
    /// for the queue, and answers with the next thing to do. An event the
    /// worker is not waiting for changes nothing and is answered with `None`.
    pub fn step(&mut self, manager: &mut UploadManager, event: WorkerEvent) -> (action: Option<
        WorkerAction,
    >)
        ensures
            match old(self)@.step(old(manager)@, event@) {
                Some((worker, board, next)) => {
                    &&& final(self)@ == worker
                    &&& final(manager)@ == board
                    &&& action.is_some()
                    &&& action.unwrap()@ == next
                },
                None => {
                    &&& final(self)@ == old(self)@
                    &&& final(manager)@ == old(manager)@
                    &&& action.is_none()
                },
            },
    {
        let mut stage = WorkerStage::Idle;
        core::mem::swap(&mut self.stage, &mut stage);
        match (stage, event) {
            (WorkerStage::Idle, WorkerEvent::Ready { now }) => Some(self.begin_round(manager, now)),
            (WorkerStage::Probing, WorkerEvent::Probed { online, now }) => Some(
                self.after_probe(manager, online, now),
            ),
            (WorkerStage::Validating(item), WorkerEvent::Inspected { size }) => Some(
                self.after_inspection(manager, item, size),
            ),
            (WorkerStage::Validating(item), WorkerEvent::Unreadable { reason }) => Some(
                self.after_rejection(manager, item, ValidationError::Unreadable { reason }),
            ),
            (WorkerStage::Uploading(item), WorkerEvent::Uploaded) => Some(
                self.after_success(manager, item),
            ),
            (WorkerStage::Uploading(item), WorkerEvent::UploadFailed { error }) => Some(
                self.after_failure(manager, item, error),
            ),
            (WorkerStage::Disposing, WorkerEvent::Disposed) => Some(self.after_disposal(manager)),
            (stage, _) => {
                self.stage = stage;
                None
            },
        }
    }
}

} // verus!
