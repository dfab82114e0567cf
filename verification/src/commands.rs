//! What the user interface asks of the pipeline.

use crate::auth::AuthData;
use crate::config::AppConfig;
use crate::config::ConfigManager;
use crate::config::Settings;
use crate::uploader::Board;
use crate::uploader::RecentRecord;
use crate::uploader::RecentUpload;
use crate::uploader::UploadManager;
use crate::uploader::UploadStatus;
use crate::text::decimal;
use crate::text::decimal_text;
use vstd::prelude::*;
use vstd::string::StringExecFns;

verus! {

/// Everything the status view shows.
#[derive(Debug, PartialEq, Eq)]
pub struct StatusInfo {
    pub authenticated: bool,
    pub email: Option<String>,
    pub online: bool,
    pub uploading: bool,
    pub queue_size: usize,
    pub recent: Vec<RecentUpload>,
    pub config: AppConfig,
}

/// What a [`StatusInfo`] says.
pub struct StatusReport {
    pub authenticated: bool,
    pub email: Option<Seq<char>>,
    pub online: bool,
    pub uploading: bool,
    pub queue_size: nat,
    pub recent: Seq<RecentRecord>,
    pub config: Settings,
}

impl View for StatusInfo {
    type V = StatusReport;

    open spec fn view(&self) -> StatusReport {
        StatusReport {
            authenticated: self.authenticated,
            email: self.email.deep_view(),
            online: self.online,
            uploading: self.uploading,
            queue_size: self.queue_size as nat,
            recent: self.recent@.map_values(|entry: RecentUpload| entry@),
            config: self.config@,
        }
    }
}

/// The status report for a board, the settings and the stored e-mail
/// address of the user, if anybody is signed in.
pub open spec fn status_of(board: Board, config: Settings, email: Option<Seq<char>>) -> StatusReport {
    StatusReport {
        authenticated: email is Some,
        email,
        online: board.online,
        uploading: board.uploading,
        queue_size: board.queue.len(),
        recent: board.recent,
        config,
    }
}

/// How many of the records are successes.
pub open spec fn successes(recent: Seq<RecentRecord>) -> nat
    decreases recent.len(),
{
    if recent.len() == 0 {
        0
    } else {
        successes(recent.drop_last()) + if recent.last().status == UploadStatus::Success {
            1nat
        } else {
            0nat
        }
    }
}

/// Name of the most recent success; nothing where there is none.
pub open spec fn latest_success(recent: Seq<RecentRecord>) -> Seq<char>
    decreases recent.len(),
{
    if recent.len() == 0 {
        Seq::empty()
    } else if recent[0].status == UploadStatus::Success {
        recent[0].name
    } else {
        latest_success(recent.drop_first())
    }
}

/// What the user is told when the history shows more successes than the
/// `seen` that were counted last time: one new success is told by name,
/// several by their number. Nothing is told otherwise.
pub open spec fn success_notice(recent: Seq<RecentRecord>, seen: nat) -> Option<Seq<char>> {
    let now = successes(recent);
    if now <= seen {
        None
    } else if now - seen == 1 {
        Some(latest_success(recent) + " subido exitosamente"@)
    } else {
        Some(decimal((now - seen) as nat) + " archivos subidos exitosamente"@)
    }
}

/// Gathers what the status view shows. `credentials` are those of the
/// signed-in user, if anybody is signed in.
pub fn get_status(
    config_manager: &ConfigManager,
    upload_manager: &UploadManager,
    credentials: Option<AuthData>,
) -> (status: StatusInfo)
    ensures
        status@ == status_of(
            upload_manager@,
            config_manager@.config,
            match credentials {
                Some(c) => Some(c.email@),
                None => None,
            },
        ),
{
    let authenticated = credentials.is_some();
    let email = match credentials {
        Some(c) => Some(c.email),
        None => None,
    };
    StatusInfo {
        authenticated,
        email,
        online: upload_manager.is_online(),
        uploading: upload_manager.is_uploading(),
        queue_size: upload_manager.queue_size(),
        recent: upload_manager.get_recent(),
        config: config_manager.get(),
    }
}

/// The settings name a server. Without one nobody can be signed in.
pub fn require_server(config: &AppConfig) -> (checked: Result<(), String>)
    ensures
        config@.server_url.len() > 0 ==> checked is Ok,
        config@.server_url.len() == 0 ==> checked is Err && checked->Err_0@
            == "No server configured"@,
{
    if config.server_url.as_str().is_empty() {
        Err(String::from_str("No server configured"))
    } else {
        Ok(())
    }
}

/// Counts the successes in a snapshot of the history.
pub fn success_count(recent: &Vec<RecentUpload>) -> (count: usize)
    ensures
        count == successes(recent@.map_values(|entry: RecentUpload| entry@)),
{
    let ghost all = recent@.map_values(|entry: RecentUpload| entry@);
    let mut count: usize = 0;
    let mut i: usize = 0;
    assert(all.take(0) =~= Seq::empty());
    while i < recent.len()
        invariant
            i <= recent.len(),
            all == recent@.map_values(|entry: RecentUpload| entry@),
            count == successes(all.take(i as int)),
            count <= i,
        decreases recent.len() - i,
    {
        assert(all.take(i + 1).drop_last() =~= all.take(i as int));
        assert(all.take(i + 1).last() == recent@[i as int]@);
        if recent[i].status == UploadStatus::Success {
            count += 1;
        }
        i += 1;
    }
    assert(all.take(i as int) =~= all);
    count
}

fn latest_success_name(recent: &Vec<RecentUpload>) -> (name: String)
    ensures
        name@ == latest_success(recent@.map_values(|entry: RecentUpload| entry@)),
{
    let ghost all = recent@.map_values(|entry: RecentUpload| entry@);
    let mut i: usize = 0;
    assert(all.skip(0) =~= all);
    while i < recent.len()
        invariant
            i <= recent.len(),
            all == recent@.map_values(|entry: RecentUpload| entry@),
            latest_success(all) == latest_success(all.skip(i as int)),
        decreases recent.len() - i,
    {
        assert(all.skip(i as int)[0] == recent@[i as int]@);
        if recent[i].status == UploadStatus::Success {
            return recent[i].name.clone();
        }
        assert(all.skip(i as int).drop_first() =~= all.skip(i + 1));
        i += 1;
    }
    String::new()
}

/// Decides what to tell the user about new successes, given a snapshot of
/// the history and the number of successes counted last time.
pub fn new_success_notice(recent: &Vec<RecentUpload>, seen: usize) -> (notice: Option<String>)
    ensures
        notice.deep_view() == success_notice(
            recent@.map_values(|entry: RecentUpload| entry@),
            seen as nat,
        ),
{
    let now = success_count(recent);
    if now <= seen {
        None
    } else if now - seen == 1 {
        Some(latest_success_name(recent).concat(" subido exitosamente"))
    } else {
        Some(decimal_text((now - seen) as u64).concat(" archivos subidos exitosamente"))
    }
}

} // verus!
