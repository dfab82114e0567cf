//! What becomes of a file between the queue and its final status: the laws
//! of the upload worker, stated over whole runs of it.

use crate::backoff::MAX_RETRIES;
use crate::paths::display_name;
use crate::paths::is_same_file;
use crate::uploader::dequeue_keeps_paths_distinct;
use crate::uploader::enqueue_keeps_paths_distinct;
use crate::uploader::lemma_position_is;
use crate::uploader::lemma_position_of;
use crate::uploader::pending_record;
use crate::uploader::reenqueue_keeps_paths_distinct;
use crate::uploader::with_recent;
use crate::uploader::position_of;
use crate::uploader::status_update_is_local;
use crate::uploader::with_status;
use crate::uploader::Board;
use crate::uploader::PendingFile;
use crate::uploader::RecentRecord;
use crate::uploader::UploadStatus;
use crate::uploader::MAX_RECENT;
use crate::validation::rejection_message;
use crate::validation::size_verdict;
use crate::validation::Rejection;
use crate::validation::MAX_FILE_SIZE;
use crate::worker::Action;
use crate::worker::Event;
use crate::worker::Stage;
use crate::worker::WorkerState;
use crate::worker::OFFLINE_WAIT_SECS;
use vstd::prelude::*;

verus! {

/// A worker and its queue at some moment, with every action the worker has
/// asked for so far.
pub struct Run {
    pub worker: WorkerState,
    pub board: Board,
    pub actions: Seq<Action>,
}

/// The run after the worker is told of `event`. An event it is not waiting
/// for leaves the run as it is.
pub open spec fn react(run: Run, event: Event) -> Run {
    match run.worker.step(run.board, event) {
        Some((worker, board, action)) => Run { worker, board, actions: run.actions.push(action) },
        None => run,
    }
}

/// The flag shown to the user is up exactly while the worker has a file in
/// hand.
pub open spec fn flag_agrees(worker: WorkerState, board: Board) -> bool {
    board.uploading == (worker.stage is Validating || worker.stage is Uploading
        || worker.stage is Disposing)
}

/// The size passes validation.
pub open spec fn is_uploadable(size: nat) -> bool {
    0 < size <= MAX_FILE_SIZE
}

/// Whether the history holds a record of the file at `path`.
pub open spec fn has_record(board: Board, path: Seq<char>) -> bool {
    position_of(board.recent, display_name(path)) < board.recent.len()
}

/// The record of the file at `path`, as long as the history holds it, shows
/// `status`.
pub open spec fn shows(board: Board, path: Seq<char>, status: UploadStatus) -> bool {
    has_record(board, path) ==> record_of(board, path).status == status
}

/// The record of the file at `path`, as long as the history holds it,
/// carries no error.
pub open spec fn shows_no_error(board: Board, path: Seq<char>) -> bool {
    has_record(board, path) ==> record_of(board, path).error is None
}

/// The record of the file at `path`: the most recent one under its name.
pub open spec fn record_of(board: Board, path: Seq<char>) -> RecentRecord {
    board.recent[position_of(board.recent, display_name(path))]
}

/// Something that happens to the pipeline: the watcher or the startup scan
/// offers a file to the queue, or the worker is told of an event.
pub enum Happening {
    Offered { path: Seq<char>, name: Seq<char>, timestamp: Seq<char> },
    Told(Event),
}

/// An offer that cannot be taken for the file at `path`: it is for another
/// file and under another name. What the worker is told is no offer.
pub open spec fn leaves_alone(happening: Happening, path: Seq<char>) -> bool {
    match happening {
        Happening::Offered { path: offered, name, .. } => {
            &&& !is_same_file(offered, path)
            &&& name != display_name(path)
            &&& display_name(offered) != display_name(path)
        },
        Happening::Told(_) => true,
    }
}

/// An offer that changes nothing in `run`: the file it is for waits in the
/// queue already. What the worker is told is no offer.
pub open spec fn is_idle_offer(run: Run, happening: Happening) -> bool {
    match happening {
        Happening::Offered { path: offered, .. } => run.board.has_path(offered),
        Happening::Told(_) => true,
    }
}

/// The run after `happening`.
pub open spec fn happen(run: Run, happening: Happening) -> Run {
    match happening {
        Happening::Offered { path, name, timestamp } => Run {
            board: run.board.enqueue(path, name, timestamp),
            ..run
        },
        Happening::Told(event) => react(run, event),
    }
}

/// The run after each of `happenings`, in order.
pub open spec fn unfold(run: Run, happenings: Seq<Happening>) -> Run
    decreases happenings.len(),
{
    if happenings.len() == 0 {
        run
    } else {
        happen(unfold(run, happenings.drop_last()), happenings.last())
    }
}

/// The file the worker has in hand for validation or upload, if any.
pub open spec fn in_hand(worker: WorkerState) -> Option<PendingFile> {
    match worker.stage {
        Stage::Validating(file) => Some(file),
        Stage::Uploading(file) => Some(file),
        _ => None,
    }
}

/// `file` has nothing to do with the file at `path`: it is another file and
/// goes by another name, so that neither its queue slot nor its record can
/// be taken for the other's.
pub open spec fn is_foreign(file: PendingFile, path: Seq<char>) -> bool {
    !is_same_file(file.path, path) && display_name(file.path) != display_name(path)
}

/// The queue holds nothing but files that are foreign to `path`.
pub open spec fn is_absent(queue: Seq<PendingFile>, path: Seq<char>) -> bool {
    forall|i: int| 0 <= i < queue.len() ==> is_foreign(#[trigger] queue[i], path)
}

/// The queue holds the file at `path` at position `at`, with `retries`
/// failed attempts, and apart from it only files that are foreign to it.
pub open spec fn waits_at(queue: Seq<PendingFile>, path: Seq<char>, retries: nat, at: int) -> bool {
    &&& 0 <= at < queue.len()
    &&& queue[at] == (PendingFile { path, retries })
    &&& forall|i: int| 0 <= i < queue.len() && i != at ==> is_foreign(#[trigger] queue[i], path)
}

/// The queue holds the file at `path` exactly once, with `retries` failed
/// attempts, among files that are foreign to it.
pub open spec fn waits_once(queue: Seq<PendingFile>, path: Seq<char>, retries: nat) -> bool {
    exists|at: int| waits_at(queue, path, retries, at)
}

/// The worker does not have the file at `path` in hand, nor one that could
/// be taken for it.
pub open spec fn hand_is_clear(worker: WorkerState, path: Seq<char>) -> bool {
    match in_hand(worker) {
        Some(file) => is_foreign(file, path),
        None => true,
    }
}

/// Whether the action disposes of the uploaded file at `path`.
pub open spec fn disposes_of(action: Action, path: Seq<char>) -> bool {
    match action {
        Action::Delete { path: target } => target == path,
        Action::Archive { path: target, .. } => target == path,
        _ => false,
    }
}

/// How many of the actions dispose of the uploaded file at `path`.
pub open spec fn disposals_of(actions: Seq<Action>, path: Seq<char>) -> nat
    decreases actions.len(),
{
    if actions.len() == 0 {
        0
    } else {
        disposals_of(actions.drop_last(), path) + if disposes_of(actions.last(), path) {
            1nat
        } else {
            0nat
        }
    }
}

/// How many of the actions are exactly `wanted`.
pub open spec fn occurrences(actions: Seq<Action>, wanted: Action) -> nat
    decreases actions.len(),
{
    if actions.len() == 0 {
        0
    } else {
        occurrences(actions.drop_last(), wanted) + if actions.last() == wanted {
            1nat
        } else {
            0nat
        }
    }
}

/// What has happened to one file over a run: how often its upload failed,
/// how often it was accepted, and how often validation turned it down.
pub struct Tally {
    pub failed: nat,
    pub accepted: nat,
    pub rejected: nat,
}

/// The tally of a file to which nothing has happened yet.
pub open spec fn no_tally() -> Tally {
    Tally { failed: 0, accepted: 0, rejected: 0 }
}

/// The tally of the file at `path` after the worker is told of `event`:
/// only the outcome of an upload or of the validation of that very file
/// counts.
pub open spec fn tally_after(tally: Tally, worker: WorkerState, event: Event, path: Seq<char>) -> Tally {
    match (worker.stage, event) {
        (Stage::Uploading(file), Event::UploadFailed { .. }) => if file.path == path {
            Tally { failed: tally.failed + 1, ..tally }
        } else {
            tally
        },
        (Stage::Uploading(file), Event::Uploaded) => if file.path == path {
            Tally { accepted: tally.accepted + 1, ..tally }
        } else {
            tally
        },
        (Stage::Validating(file), Event::Inspected { size }) => if file.path == path
            && !is_uploadable(size) {
            Tally { rejected: tally.rejected + 1, ..tally }
        } else {
            tally
        },
        (Stage::Validating(file), Event::Unreadable { .. }) => if file.path == path {
            Tally { rejected: tally.rejected + 1, ..tally }
        } else {
            tally
        },
        _ => tally,
    }
}

/// The tally of the file at `path` over the run that starts at `run` and
/// goes through `happenings`.
pub open spec fn tally_of(run: Run, happenings: Seq<Happening>, path: Seq<char>) -> Tally
    decreases happenings.len(),
{
    if happenings.len() == 0 {
        no_tally()
    } else {
        let so_far = tally_of(run, happenings.drop_last(), path);
        match happenings.last() {
            Happening::Told(event) => tally_after(
                so_far,
                unfold(run, happenings.drop_last()).worker,
                event,
                path,
            ),
            Happening::Offered { .. } => so_far,
        }
    }
}

/// No path is queued twice, and the file in the worker's hand is not queued
/// as well.
pub open spec fn queue_is_sound(run: Run) -> bool {
    &&& run.board.distinct_paths()
    &&& match in_hand(run.worker) {
        Some(file) => !run.board.has_path(file.path),
        None => true,
    }
}

/// None of the offers among `happenings` is for the file that the worker
/// has in hand at that moment.
pub open spec fn offers_spare_the_hand(run: Run, happenings: Seq<Happening>) -> bool
    decreases happenings.len(),
{
    if happenings.len() == 0 {
        true
    } else {
        &&& offers_spare_the_hand(run, happenings.drop_last())
        &&& match (happenings.last(), in_hand(unfold(run, happenings.drop_last()).worker)) {
            (Happening::Offered { path, .. }, Some(file)) => !is_same_file(file.path, path),
            _ => true,
        }
    }
}

/// Every offer among `happenings` either leaves the file at `path` alone or
/// changes nothing at its moment, being for a file that waits in the queue
/// already.
pub open spec fn offers_keep_clear(run: Run, happenings: Seq<Happening>, path: Seq<char>) -> bool
    decreases happenings.len(),
{
    if happenings.len() == 0 {
        true
    } else {
        &&& offers_keep_clear(run, happenings.drop_last(), path)
        &&& {
            ||| leaves_alone(happenings.last(), path)
            ||| is_idle_offer(unfold(run, happenings.drop_last()), happenings.last())
        }
    }
}

/// The file at `path` is neither queued nor in the worker's hand.
pub open spec fn is_gone(run: Run, path: Seq<char>) -> bool {
    is_absent(run.board.queue, path) && hand_is_clear(run.worker, path)
}

/// Where the file at `path` stands in `now`, given where the run started
/// and the file's tally since.
///
/// While nothing has settled its fate the file is either queued once, its
/// record pending, or in the worker's hand, its record uploading, never
/// both, and carries its failures as its retry count. Once it was accepted
/// its record shows success and no error; once validation turned it down, or its upload failed for the last time the budget allows,
/// its record shows failure; from then on the file is gone. It was disposed
/// of as often as it was accepted, each time the way the settings ask for.
pub open spec fn fate(start: Run, now: Run, path: Seq<char>, tally: Tally) -> bool {
    let wanted = start.worker.disposal(path);
    &&& now.worker.delete_after_upload == start.worker.delete_after_upload
    &&& now.worker.inbox_path == start.worker.inbox_path
    &&& tally.failed <= MAX_RETRIES
    &&& tally.accepted + tally.rejected <= 1
    &&& disposals_of(now.actions, path) == disposals_of(start.actions, path) + tally.accepted
    &&& occurrences(now.actions, wanted) == occurrences(start.actions, wanted) + tally.accepted
    &&& if tally.accepted == 1 {
        &&& tally.failed < MAX_RETRIES
        &&& is_gone(now, path)
        &&& shows(now.board, path, UploadStatus::Success)
        &&& shows_no_error(now.board, path)
    } else if tally.rejected == 1 {
        &&& tally.failed < MAX_RETRIES
        &&& is_gone(now, path)
        &&& shows(now.board, path, UploadStatus::Failed)
    } else if tally.failed == MAX_RETRIES {
        &&& is_gone(now, path)
        &&& shows(now.board, path, UploadStatus::Failed)
    } else {
        ||| {
            &&& waits_once(now.board.queue, path, tally.failed)
            &&& hand_is_clear(now.worker, path)
            &&& shows(now.board, path, UploadStatus::Pending)
        }
        ||| {
            &&& is_absent(now.board.queue, path)
            &&& in_hand(now.worker) == Some(PendingFile { path, retries: tally.failed })
            &&& shows(now.board, path, UploadStatus::Uploading)
        }
    }
}

/// The file at `path` is on its way and nothing has happened to it yet: it
/// is queued once without failures and its record is pending, or it is in
/// the worker's hand without failures and its record is uploading, and no
/// other file on its way lies at its path or goes by its name.
pub open spec fn is_tracked(run: Run, path: Seq<char>) -> bool {
    fate(run, run, path, no_tally())
}

/// A file without bytes is never handed to the upload step: its record
/// fails at once, it is not queued again, and no attempt is counted.
pub proof fn empty_file_is_never_uploaded(worker: WorkerState, board: Board, file: PendingFile)
    requires
        worker.stage == Stage::Validating(file),
    ensures
        worker.step(board, Event::Inspected { size: 0 }) == Some(
            (
                WorkerState { stage: Stage::Idle, ..worker },
                (Board { uploading: false, ..board }).set_status(
                    display_name(file.path),
                    UploadStatus::Failed,
                    Some(rejection_message(Rejection::Empty)),
                ),
                Action::Continue,
            ),
        ),
        worker.step(board, Event::Inspected { size: 0 }).unwrap().1.queue == board.queue,
        !(worker.step(board, Event::Inspected { size: 0 }).unwrap().0.stage is Uploading),
{
}

/// Validation failures are final: whatever the reason, the file in hand is
/// not uploaded and not queued again, its record fails with the reason, and
/// the worker rests.
pub proof fn rejected_file_is_given_up(
    worker: WorkerState,
    board: Board,
    file: PendingFile,
    event: Event,
)
    requires
        worker.stage == Stage::Validating(file),
        match event {
            Event::Inspected { size } => !is_uploadable(size),
            Event::Unreadable { .. } => true,
            _ => false,
        },
    ensures
        worker.step(board, event) is Some,
        ({
            let (next, after, action) = worker.step(board, event).unwrap();
            &&& action == Action::Continue
            &&& next.stage is Idle
            &&& after.queue == board.queue
            &&& !after.uploading
            &&& shows(after, file.path, UploadStatus::Failed)
        }),
{
    let name = display_name(file.path);
    let (next, after, action) = worker.step(board, event).unwrap();
    match event {
        Event::Inspected { size } => {
            let rejection = size_verdict(size).unwrap();
            status_update_is_local(
                board.recent,
                name,
                UploadStatus::Failed,
                Some(rejection_message(rejection)),
            );
        },
        Event::Unreadable { reason } => {
            status_update_is_local(
                board.recent,
                name,
                UploadStatus::Failed,
                Some(rejection_message(Rejection::Unreadable { reason })),
            );
        },
        _ => {},
    }
}

/// While the server is out of reach the queue is left alone: a probe that
/// fails changes nothing but the online flag, the worker waits, and the next
/// round probes again, whatever the clock reads then.
pub proof fn offline_probe_leaves_queue_alone(
    worker: WorkerState,
    board: Board,
    now: nat,
    later: nat,
)
    requires
        worker.stage is Probing,
    ensures
        worker.step(board, Event::Probed { online: false, now }) is Some,
        ({
            let (rested, seen, action) = worker.step(
                board,
                Event::Probed { online: false, now },
            ).unwrap();
            &&& action == (Action::Wait { seconds: OFFLINE_WAIT_SECS as nat })
            &&& seen == (Board { online: false, ..board })
            &&& rested.stage is Idle
            &&& rested.step(seen, Event::Ready { now: later }) is Some
            &&& rested.step(seen, Event::Ready { now: later }).unwrap().2 is Probe
            &&& rested.step(seen, Event::Ready { now: later }).unwrap().1 == seen
        }),
{
}

/// The history never outgrows its capacity, however many files are offered
/// and whatever the worker goes through.
pub proof fn history_stays_within_capacity(run: Run, happenings: Seq<Happening>)
    requires
        run.board.recent.len() <= MAX_RECENT,
    ensures
        unfold(run, happenings).board.recent.len() <= MAX_RECENT,
    decreases happenings.len(),
{
    if happenings.len() > 0 {
        let before = unfold(run, happenings.drop_last());
        history_stays_within_capacity(run, happenings.drop_last());
        lemma_status_updates(before.board.recent, Seq::empty());
    }
}

/// No path is ever queued twice, however many files are offered and
/// whatever the worker goes through, as long as no file is offered again
/// while the worker has it in hand.
pub proof fn paths_stay_distinct(run: Run, happenings: Seq<Happening>)
    requires
        queue_is_sound(run),
        offers_spare_the_hand(run, happenings),
    ensures
        queue_is_sound(unfold(run, happenings)),
    decreases happenings.len(),
{
    if happenings.len() > 0 {
        paths_stay_distinct(run, happenings.drop_last());
        let before = unfold(run, happenings.drop_last());
        let after = unfold(run, happenings);
        let queue = before.board.queue;
        match happenings.last() {
            Happening::Offered { path, name, timestamp } => {
                enqueue_keeps_paths_distinct(before.board, path, name, timestamp);
                match in_hand(before.worker) {
                    Some(file) => {
                        assert forall|i: int| 0 <= i < after.board.queue.len() implies !is_same_file(
                            (#[trigger] after.board.queue[i]).path,
                            file.path,
                        ) by {
                            if i < queue.len() {
                                assert(!is_same_file(queue[i].path, file.path));
                            }
                        }
                    },
                    None => {},
                }
            },
            Happening::Told(event) => {
                dequeue_keeps_paths_distinct(before.board);
                match in_hand(before.worker) {
                    Some(file) => {
                        reenqueue_keeps_paths_distinct(before.board, file);
                    },
                    None => {},
                }
                assert(after.board.queue == queue || after.board.queue == before.board.dequeue().queue
                    || (in_hand(before.worker) is Some && after.board.queue
                    == before.board.reenqueue(in_hand(before.worker).unwrap()).queue));
            },
        }
    }
}

/// The flag shown to the user stays true to the worker, however many files
/// are offered and whatever the worker goes through: it is up exactly while
/// the worker has a file in hand.
pub proof fn flag_stays_true(run: Run, happenings: Seq<Happening>)
    requires
        flag_agrees(run.worker, run.board),
    ensures
        flag_agrees(unfold(run, happenings).worker, unfold(run, happenings).board),
    decreases happenings.len(),
{
    if happenings.len() > 0 {
        let before = unfold(run, happenings.drop_last());
        flag_stays_true(run, happenings.drop_last());
        match happenings.last() {
            Happening::Told(event) => {
                if before.worker.step(before.board, event) is Some {
                    in_flight_is_flagged(before.worker, before.board, event);
                }
            },
            Happening::Offered { .. } => {},
        }
    }
}

/// The worker holds one file at most, and the flag shown to the user says
/// so: a step out of a consistent state leads to a consistent state.
pub proof fn in_flight_is_flagged(worker: WorkerState, board: Board, event: Event)
    requires
        flag_agrees(worker, board),
        worker.step(board, event) is Some,
    ensures
        flag_agrees(worker.step(board, event).unwrap().0, worker.step(board, event).unwrap().1),
{
}

proof fn lemma_count_push(actions: Seq<Action>, action: Action, path: Seq<char>, wanted: Action)
    ensures
        disposals_of(actions.push(action), path) == disposals_of(actions, path) + if disposes_of(
            action,
            path,
        ) {
            1nat
        } else {
            0nat
        },
        occurrences(actions.push(action), wanted) == occurrences(actions, wanted) + if action
            == wanted {
            1nat
        } else {
            0nat
        },
{
    assert(actions.push(action).drop_last() =~= actions);
}

/// What a status update does to the record of `name`: an update under
/// another name leaves it alone, and an update under its own name changes
/// its status and error and nothing else. Either way the record stays where
/// it is.
proof fn lemma_status_updates(recent: Seq<RecentRecord>, name: Seq<char>)
    ensures
        forall|other: Seq<char>, status: UploadStatus, error: Option<Seq<char>>|
            #![trigger with_status(recent, other, status, error)]
            {
                let after = with_status(recent, other, status, error);
                let at = position_of(recent, name);
                &&& after.len() == recent.len()
                &&& position_of(after, name) == at
                &&& at < recent.len() ==> after[at] == if other == name {
                    RecentRecord { status, error, ..recent[at] }
                } else {
                    recent[at]
                }
            },
{
    assert forall|other: Seq<char>, status: UploadStatus, error: Option<Seq<char>>|
        #![trigger with_status(recent, other, status, error)]
        {
            let after = with_status(recent, other, status, error);
            let at = position_of(recent, name);
            &&& after.len() == recent.len()
            &&& position_of(after, name) == at
            &&& at < recent.len() ==> after[at] == if other == name {
                RecentRecord { status, error, ..recent[at] }
            } else {
                recent[at]
            }
        } by {
        let after = with_status(recent, other, status, error);
        let at = position_of(recent, name);
        lemma_position_of(recent, name);
        lemma_position_of(recent, other);
        if other == name {
            status_update_is_local(recent, name, status, error);
        } else {
            assert forall|i: int| 0 <= i < at implies (#[trigger] after[i]).name != name by {
                assert(after[i].name == recent[i].name);
            }
            lemma_position_is(after, name, at);
        }
    }
}

/// Taking the head out of a queue keeps the file at `path` where it is
/// relative to the rest, unless it was the head.
proof fn lemma_dequeue(queue: Seq<PendingFile>, path: Seq<char>, retries: nat)
    requires
        queue.len() > 0,
    ensures
        is_absent(queue, path) ==> is_absent(queue.drop_first(), path) && is_foreign(queue[0], path),
        waits_once(queue, path, retries) ==> {
            ||| queue[0] == (PendingFile { path, retries }) && is_absent(queue.drop_first(), path)
            ||| is_foreign(queue[0], path) && waits_once(queue.drop_first(), path, retries)
        },
{
    let rest = queue.drop_first();
    if is_absent(queue, path) {
        assert forall|i: int| 0 <= i < rest.len() implies is_foreign(#[trigger] rest[i], path) by {
            assert(rest[i] == queue[i + 1]);
        }
    }
    if waits_once(queue, path, retries) {
        let at = choose|at: int| waits_at(queue, path, retries, at);
        if at == 0 {
            assert forall|i: int| 0 <= i < rest.len() implies is_foreign(
                #[trigger] rest[i],
                path,
            ) by {
                assert(rest[i] == queue[i + 1]);
            }
        } else {
            assert(is_foreign(queue[0], path));
            assert(rest[at - 1] == queue[at]);
            assert forall|i: int| 0 <= i < rest.len() && i != at - 1 implies is_foreign(
                #[trigger] rest[i],
                path,
            ) by {
                assert(rest[i] == queue[i + 1]);
            }
            assert(waits_at(rest, path, retries, at - 1));
        }
    }
}

/// Putting a file at the tail of a queue: the file at `path` comes to wait
/// there, and a foreign file disturbs nothing.
proof fn lemma_requeue(queue: Seq<PendingFile>, path: Seq<char>, retries: nat, file: PendingFile)
    ensures
        is_absent(queue, path) && file == (PendingFile { path, retries }) ==> waits_once(
            queue.push(file),
            path,
            retries,
        ),
        is_absent(queue, path) && is_foreign(file, path) ==> is_absent(queue.push(file), path),
        waits_once(queue, path, retries) && is_foreign(file, path) ==> waits_once(
            queue.push(file),
            path,
            retries,
        ),
{
    let longer = queue.push(file);
    if is_absent(queue, path) && file == (PendingFile { path, retries }) {
        assert forall|i: int| 0 <= i < longer.len() && i != queue.len() implies is_foreign(
            #[trigger] longer[i],
            path,
        ) by {
            assert(longer[i] == queue[i]);
        }
        assert(waits_at(longer, path, retries, queue.len() as int));
    }
    if is_absent(queue, path) && is_foreign(file, path) {
        assert forall|i: int| 0 <= i < longer.len() implies is_foreign(
            #[trigger] longer[i],
            path,
        ) by {
            if i < queue.len() {
                assert(longer[i] == queue[i]);
            }
        }
    }
    if waits_once(queue, path, retries) && is_foreign(file, path) {
        let at = choose|at: int| waits_at(queue, path, retries, at);
        assert(longer[at] == queue[at]);
        assert forall|i: int| 0 <= i < longer.len() && i != at implies is_foreign(
            #[trigger] longer[i],
            path,
        ) by {
            if i < queue.len() {
                assert(longer[i] == queue[i]);
            }
        }
        assert(waits_at(longer, path, retries, at));
    }
}

/// What a new entry at the head of the history does to the record of
/// `name`, the entry going by another name: the record moves one place
/// back, or leaves the history.
proof fn lemma_offer_keeps_record(recent: Seq<RecentRecord>, entry: RecentRecord, name: Seq<char>)
    requires
        entry.name != name,
    ensures
        ({
            let after = with_recent(recent, entry);
            let was = position_of(recent, name);
            let is = position_of(after, name);
            is < after.len() ==> was < recent.len() && is == was + 1 && after[is] == recent[was]
        }),
{
    let after = with_recent(recent, entry);
    let kept = if recent.len() < MAX_RECENT {
        recent
    } else {
        recent.take(MAX_RECENT - 1)
    };
    let was = position_of(recent, name);
    assert(after.drop_first() =~= kept);
    assert(position_of(after, name) == 1 + position_of(kept, name));
    lemma_position_of(recent, name);
    let here = if was < kept.len() {
        was
    } else {
        kept.len() as int
    };
    assert forall|i: int| 0 <= i < here implies (#[trigger] kept[i]).name != name by {
        assert(kept[i] == recent[i]);
    }
    lemma_position_is(kept, name, here);
}

/// One step keeps the fate of a file: whatever the worker is told, the file
/// at `path` stands in the next state as [`fate`] says for its next tally.
pub proof fn step_keeps_fate(start: Run, now: Run, path: Seq<char>, tally: Tally, event: Event)
    requires
        fate(start, now, path, tally),
    ensures
        fate(start, react(now, event), path, tally_after(tally, now.worker, event, path)),
{
    let next = react(now, event);
    let name = display_name(path);
    let wanted = start.worker.disposal(path);
    lemma_status_updates(now.board.recent, name);
    if now.worker.step(now.board, event) is Some {
        let action = now.worker.step(now.board, event).unwrap().2;
        assert(next.actions == now.actions.push(action));
        lemma_count_push(now.actions, action, path, wanted);
        let queue = now.board.queue;
        if queue.len() > 0 {
            lemma_dequeue(queue, path, tally.failed);
        }
        match in_hand(now.worker) {
            Some(file) => {
                let again = PendingFile { path: file.path, retries: file.retries + 1 };
                lemma_requeue(queue, path, file.retries + 1, again);
                lemma_requeue(queue, path, tally.failed, again);
                assert(now.worker.disposal(file.path) == wanted <==> file.path == path) by {
                    if file.path == path {
                        assert(now.worker.disposal(file.path) == wanted);
                    }
                }
            },
            None => {},
        }
        assert(fate(start, next, path, tally_after(tally, now.worker, event, path)));
    }
}

/// An offer that leaves the file alone keeps its fate: the file stands
/// where it stood, and its record, unless it leaves the history, says what
/// it said.
pub proof fn offer_keeps_fate(start: Run, now: Run, path: Seq<char>, tally: Tally, offer: Happening)
    requires
        fate(start, now, path, tally),
        offer is Offered,
        leaves_alone(offer, path),
    ensures
        fate(start, happen(now, offer), path, tally),
{
    let next = happen(now, offer);
    let offered = offer->Offered_path;
    if !now.board.has_path(offered) {
        let file = PendingFile { path: offered, retries: 0 };
        lemma_requeue(now.board.queue, path, tally.failed, file);
        lemma_offer_keeps_record(
            now.board.recent,
            pending_record(offer->name, offer->timestamp),
            display_name(path),
        );
    }
}

/// The fate of a file is kept over any run: whatever files are offered
/// meanwhile, whatever the worker is told, and in whatever order, a tracked
/// file stands at the end as [`fate`] says for its tally over the run. The
/// one thing asked of the offers is that each leaves the file alone or is
/// for a file that waits already.
pub proof fn run_keeps_fate(start: Run, path: Seq<char>, happenings: Seq<Happening>)
    requires
        is_tracked(start, path),
        offers_keep_clear(start, happenings, path),
    ensures
        fate(start, unfold(start, happenings), path, tally_of(start, happenings, path)),
    decreases happenings.len(),
{
    if happenings.len() > 0 {
        let earlier = happenings.drop_last();
        run_keeps_fate(start, path, earlier);
        let before = unfold(start, earlier);
        let so_far = tally_of(start, earlier, path);
        match happenings.last() {
            Happening::Told(event) => {
                step_keeps_fate(start, before, path, so_far, event);
            },
            Happening::Offered { .. } => {
                if !is_idle_offer(before, happenings.last()) {
                    offer_keeps_fate(start, before, path, so_far, happenings.last());
                }
            },
        }
    }
}

/// A file whose upload has failed ten times ends as failed, however its
/// attempts were interleaved with other files, with offers, probes and
/// waits: its upload never fails an eleventh time, its record says that it
/// failed for as long as the history holds it, the file holds no slot of the
/// queue any more, and it was never disposed of.
pub proof fn ten_failures_are_final(start: Run, path: Seq<char>, happenings: Seq<Happening>)
    requires
        is_tracked(start, path),
        offers_keep_clear(start, happenings, path),
    ensures
        tally_of(start, happenings, path).failed <= MAX_RETRIES,
        tally_of(start, happenings, path).failed == MAX_RETRIES ==> {
            let end = unfold(start, happenings);
            &&& !end.board.has_path(path)
            &&& hand_is_clear(end.worker, path)
            &&& shows(end.board, path, UploadStatus::Failed)
            &&& tally_of(start, happenings, path).accepted == 0
            &&& disposals_of(end.actions, path) == disposals_of(start.actions, path)
        },
{
    run_keeps_fate(start, path, happenings);
    let end = unfold(start, happenings);
    if tally_of(start, happenings, path).failed == MAX_RETRIES {
        assert forall|i: int| 0 <= i < end.board.queue.len() implies !is_same_file(
            (#[trigger] end.board.queue[i]).path,
            path,
        ) by {
            assert(is_foreign(end.board.queue[i], path));
        }
    }
}

/// A file whose upload is accepted, after fewer than ten failures, ends as
/// uploaded, whatever happens afterwards: its record says that it
/// succeeded, and carries no error, for as long as the history holds it, the
/// file holds no slot of the queue
/// any more, and over the whole run it is disposed of exactly once, the way
/// the settings ask for: deleted, or else archived. Never both.
pub proof fn success_after_failures_is_final(
    start: Run,
    path: Seq<char>,
    happenings: Seq<Happening>,
)
    requires
        is_tracked(start, path),
        offers_keep_clear(start, happenings, path),
    ensures
        tally_of(start, happenings, path).accepted <= 1,
        tally_of(start, happenings, path).accepted == 1 ==> {
            let end = unfold(start, happenings);
            let wanted = start.worker.disposal(path);
            &&& tally_of(start, happenings, path).failed < MAX_RETRIES
            &&& !end.board.has_path(path)
            &&& hand_is_clear(end.worker, path)
            &&& shows(end.board, path, UploadStatus::Success)
            &&& shows_no_error(end.board, path)
            &&& disposals_of(end.actions, path) == disposals_of(start.actions, path) + 1
            &&& occurrences(end.actions, wanted) == occurrences(start.actions, wanted) + 1
            &&& start.worker.delete_after_upload ==> wanted == (Action::Delete { path })
            &&& !start.worker.delete_after_upload ==> wanted is Archive
        },
{
    run_keeps_fate(start, path, happenings);
    let end = unfold(start, happenings);
    if tally_of(start, happenings, path).accepted == 1 {
        assert forall|i: int| 0 <= i < end.board.queue.len() implies !is_same_file(
            (#[trigger] end.board.queue[i]).path,
            path,
        ) by {
            assert(is_foreign(end.board.queue[i], path));
        }
    }
}

/// Until its fate is settled a file is in exactly one place, its retry
/// count is the number of its failed uploads, and its record says where it
/// is: it waits in the queue once and is pending, or it is in the worker's
/// hand and is uploading.
pub proof fn retries_count_failures(start: Run, path: Seq<char>, happenings: Seq<Happening>)
    requires
        is_tracked(start, path),
        offers_keep_clear(start, happenings, path),
        tally_of(start, happenings, path).accepted == 0,
        tally_of(start, happenings, path).rejected == 0,
        tally_of(start, happenings, path).failed < MAX_RETRIES,
    ensures
        ({
            let end = unfold(start, happenings);
            let failed = tally_of(start, happenings, path).failed;
            ||| {
                &&& waits_once(end.board.queue, path, failed)
                &&& hand_is_clear(end.worker, path)
                &&& shows(end.board, path, UploadStatus::Pending)
            }
            ||| {
                &&& is_absent(end.board.queue, path)
                &&& in_hand(end.worker) == Some(PendingFile { path, retries: failed })
                &&& shows(end.board, path, UploadStatus::Uploading)
            }
        }),
{
    run_keeps_fate(start, path, happenings);
}

} // verus!
