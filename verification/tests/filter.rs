use inmobiliaria_inbox::filter::ignore_decision;
use inmobiliaria_inbox::filter::ignored_name;
use inmobiliaria_inbox::filter::should_ignore;
use inmobiliaria_inbox::filter::through_archive;
use inmobiliaria_inbox::uploader::UploadManager;
use inmobiliaria_inbox::watcher::deliver_probed;
use inmobiliaria_inbox::watcher::is_candidate_event;
use inmobiliaria_inbox::watcher::is_file_ready;
use inmobiliaria_inbox::watcher::scan_existing_files;
use inmobiliaria_inbox::watcher::ChangeKind;
use inmobiliaria_inbox::watcher::InboxEntry;
use inmobiliaria_inbox::watcher::WatchError;
use inmobiliaria_inbox::watcher::DEBOUNCE_SECS;
use inmobiliaria_inbox::watcher::PROBE_INTERVAL_MILLIS;

fn file(path: &str) -> InboxEntry {
    InboxEntry { path: path.to_string(), is_dir: false, is_file: true }
}

#[test]
fn hidden_names_are_ignored() {
    assert!(ignored_name(".hidden"));
    assert!(ignored_name(".DS_Store"));
    assert!(ignored_name(".localized"));
    assert!(ignored_name("."));
}

#[test]
fn system_names_are_ignored() {
    assert!(ignored_name("Thumbs.db"));
    assert!(ignored_name("desktop.ini"));
    assert!(ignored_name("Icon\r"));
    assert!(!ignored_name("Thumbs.dbx"));
    assert!(!ignored_name("xThumbs.db"));
    assert!(!ignored_name("Thumbs.dbThumbs.db"));
    assert!(!ignored_name("Icon"));
    assert!(!ignored_name("thumbs.db"));
}

#[test]
fn ignored_prefixes() {
    assert!(ignored_name("~$report.docx"));
    assert!(ignored_name("._report.docx"));
    assert!(!ignored_name("~report.docx"));
    assert!(!ignored_name("a~$report.docx"));
}

#[test]
fn ignored_suffixes() {
    assert!(ignored_name("a.tmp"));
    assert!(ignored_name("a.swp"));
    assert!(ignored_name("movie.mp4.crdownload"));
    assert!(ignored_name("a.part"));
    assert!(ignored_name("a.partial"));
    assert!(!ignored_name("a.tmpx"));
    assert!(!ignored_name("a.TMP"));
    assert!(!ignored_name("tmp"));
}

#[test]
fn ordinary_names_pass() {
    assert!(!ignored_name("a.pdf"));
    assert!(!ignored_name("contrato final.docx"));
    assert!(!ignored_name(""));
}

#[test]
fn archive_component_is_found() {
    assert!(through_archive(&vec!["inbox".to_string(), "Subidos".to_string()]));
    assert!(!through_archive(&vec!["inbox".to_string(), "subidos".to_string()]));
    assert!(!through_archive(&vec![]));
    assert!(!through_archive(&vec!["Subidos2".to_string()]));
}

#[test]
fn ignore_decision_combines_the_rules() {
    let plain = vec!["inbox".to_string(), "a.pdf".to_string()];
    let archived = vec!["inbox".to_string(), "Subidos".to_string(), "a.pdf".to_string()];
    assert!(ignore_decision(None, &plain, false));
    assert!(!ignore_decision(Some("a.pdf"), &plain, false));
    assert!(ignore_decision(Some("a.pdf"), &plain, true));
    assert!(ignore_decision(Some("a.pdf"), &archived, false));
    assert!(ignore_decision(Some(".a.pdf"), &plain, false));
}

#[test]
fn should_ignore_reads_the_path() {
    assert!(!should_ignore("/inbox/a.pdf", false));
    assert!(should_ignore("/inbox/a.pdf", true));
    assert!(should_ignore("/inbox/.DS_Store", false));
    assert!(should_ignore("/inbox/Subidos/a.pdf", false));
    assert!(should_ignore("/inbox/Subidos", false));
    assert!(should_ignore("/inbox/a.pdf.part", false));
    assert!(should_ignore("/", false));
    assert!(should_ignore("/inbox/..", false));
    assert!(!should_ignore("/inbox/Subidos.pdf", false));
    assert!(!should_ignore("a.pdf", false));
}

#[test]
fn file_is_ready_when_samples_agree_and_are_not_zero() {
    assert!(is_file_ready(Some(10), Some(10)));
    assert!(!is_file_ready(Some(10), Some(11)));
    assert!(!is_file_ready(Some(11), Some(10)));
    assert!(!is_file_ready(Some(0), Some(0)));
    assert!(!is_file_ready(None, Some(10)));
    assert!(!is_file_ready(Some(10), None));
    assert!(!is_file_ready(None, None));
    assert_eq!(PROBE_INTERVAL_MILLIS, 500);
    assert_eq!(DEBOUNCE_SECS, 2);
}

#[test]
fn scan_yields_only_candidates() {
    let entries = vec![file("/inbox/a.pdf"), file("/inbox/.DS_Store")];
    assert_eq!(scan_existing_files(&entries), vec!["/inbox/a.pdf".to_string()]);
}

#[test]
fn scan_keeps_order_and_skips_directories() {
    let entries = vec![
        file("/inbox/z.pdf"),
        InboxEntry { path: "/inbox/Subidos".to_string(), is_dir: true, is_file: false },
        InboxEntry { path: "/inbox/folder".to_string(), is_dir: true, is_file: false },
        file("/inbox/~$z.docx"),
        InboxEntry { path: "/inbox/pipe".to_string(), is_dir: false, is_file: false },
        file("/inbox/a.pdf"),
    ];
    assert_eq!(
        scan_existing_files(&entries),
        vec!["/inbox/z.pdf".to_string(), "/inbox/a.pdf".to_string()]
    );
    assert_eq!(scan_existing_files(&vec![]), Vec::<String>::new());
}

#[test]
fn watch_events_are_followed_only_for_direct_children() {
    assert!(is_candidate_event(ChangeKind::Settled, &file("/inbox/a.pdf"), "/inbox"));
    assert!(is_candidate_event(ChangeKind::Settled, &file("/inbox/a.pdf"), "/inbox/"));
    assert!(!is_candidate_event(ChangeKind::Continuous, &file("/inbox/a.pdf"), "/inbox"));
    assert!(!is_candidate_event(ChangeKind::Settled, &file("/inbox/sub/a.pdf"), "/inbox"));
    assert!(!is_candidate_event(ChangeKind::Settled, &file("/inbox/.a.pdf"), "/inbox"));
    assert!(!is_candidate_event(ChangeKind::Settled, &file("/elsewhere/a.pdf"), "/inbox"));
    assert!(!is_candidate_event(
        ChangeKind::Settled,
        &InboxEntry { path: "/inbox/a.pdf".to_string(), is_dir: false, is_file: false },
        "/inbox"
    ));
    assert!(!is_candidate_event(
        ChangeKind::Settled,
        &InboxEntry { path: "/inbox/d".to_string(), is_dir: true, is_file: false },
        "/inbox"
    ));
}

#[test]
fn changing_file_is_never_enqueued_by_the_watch_path() {
    let mut manager = UploadManager::new();
    assert!(!deliver_probed(&mut manager, "/inbox/a.pdf".to_string(), Some(100), Some(200)));
    assert_eq!(manager.queue_size(), 0);
    assert!(manager.get_recent().is_empty());
    assert!(!deliver_probed(&mut manager, "/inbox/a.pdf".to_string(), Some(0), Some(0)));
    assert!(!deliver_probed(&mut manager, "/inbox/a.pdf".to_string(), None, None));
    assert_eq!(manager.queue_size(), 0);
}

#[test]
fn stable_file_is_enqueued_by_the_watch_path() {
    let mut manager = UploadManager::new();
    assert!(deliver_probed(&mut manager, "/inbox/a.pdf".to_string(), Some(100), Some(100)));
    assert_eq!(manager.queue_size(), 1);
    assert_eq!(manager.get_recent()[0].name, "a.pdf");
    assert!(deliver_probed(&mut manager, "/inbox/a.pdf".to_string(), Some(100), Some(100)));
    assert_eq!(manager.queue_size(), 1);
}

#[test]
fn watch_error_messages() {
    assert_eq!(
        WatchError::Create { reason: "no inotify".to_string() }.message(),
        "Failed to create file watcher: no inotify"
    );
    assert_eq!(
        WatchError::Watch { reason: "missing".to_string() }.message(),
        "Failed to watch folder: missing"
    );
}
