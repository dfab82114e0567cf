use inmobiliaria_inbox::auth::settle_credentials;
use inmobiliaria_inbox::auth::sign_in_failure;
use inmobiliaria_inbox::auth::stored_credentials;
use inmobiliaria_inbox::auth::AuthData;
use inmobiliaria_inbox::commands::get_status;
use inmobiliaria_inbox::commands::new_success_notice;
use inmobiliaria_inbox::commands::require_server;
use inmobiliaria_inbox::commands::success_count;
use inmobiliaria_inbox::config::dirs_default_inbox;
use inmobiliaria_inbox::config::document_dir;
use inmobiliaria_inbox::config::home_dir;
use inmobiliaria_inbox::config::uploaded_subfolder;
use inmobiliaria_inbox::config::AppConfig;
use inmobiliaria_inbox::config::ConfigManager;
use inmobiliaria_inbox::tray::determine_state;
use inmobiliaria_inbox::tray::shorten_name;
use inmobiliaria_inbox::tray::status_mark;
use inmobiliaria_inbox::tray::truncate_name;
use inmobiliaria_inbox::tray::try_truncate_name;
use inmobiliaria_inbox::tray::TrayState;
use inmobiliaria_inbox::uploader::RecentUpload;
use inmobiliaria_inbox::uploader::UploadManager;
use inmobiliaria_inbox::uploader::UploadStatus;
use inmobiliaria_inbox::worker::Worker;
use inmobiliaria_inbox::worker::WorkerEvent;

fn record(name: &str, status: UploadStatus) -> RecentUpload {
    RecentUpload { name: name.to_string(), status, timestamp: "10:00:00".to_string(), error: None }
}

fn auth() -> AuthData {
    AuthData { token: "t".to_string(), user_id: "u".to_string(), email: "e@x".to_string() }
}

#[test]
fn tray_state_follows_the_manager() {
    let mut m = UploadManager::new();
    assert_eq!(determine_state(&m), TrayState::Connected);
    m.enqueue("/inbox/a.pdf".to_string());
    m.enqueue("/inbox/b.pdf".to_string());
    assert_eq!(determine_state(&m), TrayState::Pending(2));
    m.set_online(false);
    assert_eq!(determine_state(&m), TrayState::Offline);
    m.set_online(true);
    let mut w = Worker::new("s".to_string(), true, "/inbox".to_string());
    w.step(&mut m, WorkerEvent::Ready { now: 0 });
    w.step(&mut m, WorkerEvent::Probed { online: true, now: 0 });
    assert_eq!(determine_state(&m), TrayState::Syncing(2));
}

#[test]
fn tray_texts_are_exact() {
    assert_eq!(TrayState::Connected.icon_name(), "tray-default");
    assert_eq!(TrayState::Syncing(1).icon_name(), "tray-syncing");
    assert_eq!(TrayState::Offline.icon_name(), "tray-offline");
    assert_eq!(TrayState::Pending(1).icon_name(), "tray-default");
    assert_eq!(TrayState::NotAuthenticated.icon_name(), "tray-offline");
    assert_eq!(TrayState::Connected.tooltip(), "Inmobiliaria Inbox — Conectado");
    assert_eq!(TrayState::Syncing(3).tooltip(), "Inmobiliaria Inbox — Subiendo 3 archivo(s)...");
    assert_eq!(TrayState::Offline.tooltip(), "Inmobiliaria Inbox — Sin conexión");
    assert_eq!(TrayState::Pending(12).tooltip(), "Inmobiliaria Inbox — 12 pendiente(s)");
    assert_eq!(TrayState::NotAuthenticated.tooltip(), "Inmobiliaria Inbox — No autenticado");
    assert_eq!(TrayState::Connected.status_line(), "✓ Conectado");
    assert_eq!(TrayState::Syncing(3).status_line(), "↑ Subiendo 3 archivo(s)...");
    assert_eq!(TrayState::Offline.status_line(), "✕ Sin conexión");
    assert_eq!(TrayState::Pending(12).status_line(), "● 12 pendiente(s) de subida");
    assert_eq!(TrayState::NotAuthenticated.status_line(), "⚠ No autenticado");
    assert_eq!(status_mark(UploadStatus::Success), "✓");
    assert_eq!(status_mark(UploadStatus::Failed), "✕");
    assert_eq!(status_mark(UploadStatus::Pending), "●");
    assert_eq!(status_mark(UploadStatus::Uploading), "↑");
}

#[test]
fn short_names_are_shown_whole() {
    assert_eq!(truncate_name("a.pdf", 30), "a.pdf");
    assert_eq!(truncate_name("", 0), "");
    assert_eq!(truncate_name("añb.pdf", 8), "añb.pdf");
}

#[test]
fn long_names_keep_front_and_extension() {
    assert_eq!(
        truncate_name("a_very_long_document_name_for_testing.pdf", 30),
        "a_very_long_document_na...pdf"
    );
    assert_eq!(truncate_name("abcdefghijklmnopqrstuvwxyz", 10), "abcdef...");
    assert_eq!(truncate_name("abcdefghij.pdf", 5), "...pdf");
    assert_eq!(truncate_name("abcdefghij", 0), "...");
}

#[test]
fn cut_inside_a_character_is_refused() {
    assert_eq!(try_truncate_name("ñññññññññññ", 5), None);
    assert_eq!(try_truncate_name("ñññññññññññ", 6), Some("ñ...".to_string()));
    assert_eq!(
        try_truncate_name("a_very_long_document_name_for_testing.pdf", 30),
        Some("a_very_long_document_na...pdf".to_string())
    );
    assert_eq!(try_truncate_name("a.pdf", 30), Some("a.pdf".to_string()));
}

#[test]
fn uploaded_subfolder_lies_below_the_inbox() {
    assert_eq!(uploaded_subfolder("/home/u/Inbox"), "/home/u/Inbox/Subidos");
    assert_eq!(uploaded_subfolder("/home/u/Inbox/"), "/home/u/Inbox/Subidos");
    let expected = std::path::PathBuf::from("rel").join("Subidos");
    assert_eq!(uploaded_subfolder("rel"), expected.to_string_lossy());
}

#[test]
fn default_folders() {
    assert_eq!(home_dir(Some("/h".to_string()), Some("/p".to_string())), Some("/h".to_string()));
    assert_eq!(home_dir(None, Some("/p".to_string())), Some("/p".to_string()));
    assert_eq!(home_dir(None, None), None);
    assert_eq!(document_dir(Some("/h".to_string())), Some("/h/Documents".to_string()));
    assert_eq!(document_dir(None), None);
    assert_eq!(
        dirs_default_inbox(Some("/h/Documents".to_string()), Some("/h".to_string())),
        "/h/Documents/Inmobiliaria Inbox"
    );
    assert_eq!(dirs_default_inbox(None, Some("/h".to_string())), "/h/Inmobiliaria Inbox");
    assert_eq!(dirs_default_inbox(None, None), "./Inmobiliaria Inbox");
}

#[test]
fn first_start_settings() {
    let config = AppConfig::first_start("/h/Inbox".to_string());
    assert_eq!(
        config,
        AppConfig {
            server_url: String::new(),
            inbox_path: "/h/Inbox".to_string(),
            delete_after_upload: true,
            auto_start: true,
        }
    );
    assert_eq!(config.clone(), config);
}

#[test]
fn config_manager_keeps_settings() {
    let fallback = AppConfig::first_start("/h/Inbox".to_string());
    let mut manager = ConfigManager::new("/data", None, fallback.clone());
    assert_eq!(manager.config_path(), "/data/config.json");
    assert_eq!(manager.get(), fallback);
    let candidate = manager.with_server_url("http://srv");
    assert_eq!(candidate.server_url, "http://srv");
    assert_eq!(candidate.inbox_path, "/h/Inbox");
    assert_eq!(manager.get().server_url, "");
    manager.update_server_url("http://srv");
    assert_eq!(manager.get(), candidate);
    let stored = AppConfig {
        server_url: "http://old".to_string(),
        inbox_path: "/x".to_string(),
        delete_after_upload: false,
        auto_start: false,
    };
    let mut other = ConfigManager::new("/data", Some(stored.clone()), fallback.clone());
    assert_eq!(other.get(), stored);
    other.save(fallback.clone());
    assert_eq!(other.get(), fallback);
    assert_eq!(other.config_path(), "/data/config.json");
}

#[test]
fn stored_credentials_complain_about_the_first_missing() {
    let s = |v: &str| Some(v.to_string());
    assert_eq!(stored_credentials(None, s("u"), s("e")), Err("No stored token found".to_string()));
    assert_eq!(stored_credentials(None, None, None), Err("No stored token found".to_string()));
    assert_eq!(
        stored_credentials(s("t"), None, None),
        Err("No stored user ID found".to_string())
    );
    assert_eq!(stored_credentials(s("t"), s("u"), None), Err("No stored email found".to_string()));
    assert_eq!(stored_credentials(s("t"), s("u"), s("e@x")), Ok(auth()));
}

#[test]
fn credentials_settle_on_the_fresh_ones() {
    let fresh = AuthData { token: "t2".to_string(), user_id: "u".to_string(), email: "e@x".to_string() };
    assert_eq!(settle_credentials(auth(), Some(fresh.clone())), fresh);
    assert_eq!(settle_credentials(auth(), None), auth());
    assert_eq!(auth().clone(), auth());
    assert_eq!(
        sign_in_failure("400 Bad Request", "{}"),
        "Authentication failed (400 Bad Request): {}"
    );
}

#[test]
fn status_gathers_everything() {
    let config = ConfigManager::new("/data", None, AppConfig::first_start("/h/Inbox".to_string()));
    let mut m = UploadManager::new();
    m.enqueue_entry("/inbox/a.pdf".to_string(), "a.pdf".to_string(), "10:00:00".to_string());
    m.set_online(false);
    let status = get_status(&config, &m, Some(auth()));
    assert!(status.authenticated);
    assert_eq!(status.email, Some("e@x".to_string()));
    assert!(!status.online);
    assert!(!status.uploading);
    assert_eq!(status.queue_size, 1);
    assert_eq!(status.recent, vec![record("a.pdf", UploadStatus::Pending)]);
    assert_eq!(status.config, AppConfig::first_start("/h/Inbox".to_string()));
    let anonymous = get_status(&config, &m, None);
    assert!(!anonymous.authenticated);
    assert_eq!(anonymous.email, None);
}

#[test]
fn server_is_required() {
    let mut config = AppConfig::first_start("/h/Inbox".to_string());
    assert_eq!(require_server(&config), Err("No server configured".to_string()));
    config.server_url = "http://srv".to_string();
    assert_eq!(require_server(&config), Ok(()));
}

#[test]
fn successes_are_counted_and_announced() {
    let recent = vec![
        record("c.pdf", UploadStatus::Pending),
        record("b.pdf", UploadStatus::Success),
        record("x.pdf", UploadStatus::Failed),
        record("a.pdf", UploadStatus::Success),
    ];
    assert_eq!(success_count(&recent), 2);
    assert_eq!(success_count(&vec![]), 0);
    assert_eq!(new_success_notice(&recent, 2), None);
    assert_eq!(new_success_notice(&recent, 3), None);
    assert_eq!(new_success_notice(&recent, 1), Some("b.pdf subido exitosamente".to_string()));
    assert_eq!(
        new_success_notice(&recent, 0),
        Some("2 archivos subidos exitosamente".to_string())
    );
}

#[test]
fn shorten_name_cuts_on_given_values() {
    assert_eq!(shorten_name("abcdefghij", "", 10), Some("abcdefghij".to_string()));
    assert_eq!(shorten_name("abcdefghijk", "", 10), Some("abcdef...".to_string()));
    assert_eq!(shorten_name("abcdefghijk", "xy", 10), Some("abcd...xy".to_string()));
    assert_eq!(shorten_name("abcdefghijk", "toolongext", 10), Some("...toolongext".to_string()));
    assert_eq!(shorten_name("ñññññññññññ", "", 5), None);
    assert_eq!(shorten_name("ñññññññññññ", "", 6), Some("ñ...".to_string()));
    assert_eq!(shorten_name("ab", "", 1), Some("...".to_string()));
}
