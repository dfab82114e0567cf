//! Application settings and the places on disk derived from them.

use crate::paths::join_path;
use crate::paths::path_join;
use vstd::prelude::*;

verus! {

/// The settings of the application.
#[derive(Debug, PartialEq, Eq)]
pub struct AppConfig {
    pub server_url: String,
    pub inbox_path: String,
    pub delete_after_upload: bool,
    pub auto_start: bool,
}

/// What an [`AppConfig`] says.
pub struct Settings {
    pub server_url: Seq<char>,
    pub inbox_path: Seq<char>,
    pub delete_after_upload: bool,
    pub auto_start: bool,
}

impl View for AppConfig {
    type V = Settings;

    open spec fn view(&self) -> Settings {
        Settings {
            server_url: self.server_url@,
            inbox_path: self.inbox_path@,
            delete_after_upload: self.delete_after_upload,
            auto_start: self.auto_start,
        }
    }
}

impl Clone for AppConfig {
    fn clone(&self) -> (copy: Self)
        ensures
            copy@ == self@,
    {
        AppConfig {
            server_url: self.server_url.clone(),
            inbox_path: self.inbox_path.clone(),
            delete_after_upload: self.delete_after_upload,
            auto_start: self.auto_start,
        }
    }
}

/// The settings of a first start: no server yet, uploaded files are
/// deleted, and the application starts with the session.
pub open spec fn first_settings(inbox_path: Seq<char>) -> Settings {
    Settings {
        server_url: Seq::empty(),
        inbox_path,
        delete_after_upload: true,
        auto_start: true,
    }
}

/// The folder, below the inbox, that uploaded files are moved to.
pub open spec fn archive_folder(inbox_path: Seq<char>) -> Seq<char> {
    path_join(inbox_path, "Subidos"@)
}

/// The user's home folder: what `HOME` names, or else what `USERPROFILE`
/// names.
pub open spec fn home_folder(home: Option<Seq<char>>, user_profile: Option<Seq<char>>) -> Option<
    Seq<char>,
> {
    match home {
        Some(folder) => Some(folder),
        None => user_profile,
    }
}

/// The user's documents folder, below the home folder.
pub open spec fn documents_folder(home: Option<Seq<char>>) -> Option<Seq<char>> {
    match home {
        Some(folder) => Some(path_join(folder, "Documents"@)),
        None => None,
    }
}

/// Where the inbox lies unless the user says otherwise: below the documents
/// folder, or else below the home folder, or else below the working
/// directory.
pub open spec fn default_inbox_path(documents: Option<Seq<char>>, home: Option<Seq<char>>) -> Seq<
    char,
> {
    let base = match documents {
        Some(folder) => folder,
        None => match home {
            Some(folder) => folder,
            None => "."@,
        },
    };
    path_join(base, "Inmobiliaria Inbox"@)
}

/// The file the settings are kept in, below the application's data folder.
pub open spec fn settings_file(app_data_dir: Seq<char>) -> Seq<char> {
    path_join(app_data_dir, "config.json"@)
}

impl AppConfig {
    /// The settings of a first start, with the inbox at `inbox_path`.
    pub fn first_start(inbox_path: String) -> (config: Self)
        ensures
            config@ == first_settings(inbox_path@),
    {
        AppConfig {
            server_url: String::new(),
            inbox_path,
            delete_after_upload: true,
            auto_start: true,
        }
    }
}

/// The user's home folder, from the values of `HOME` and `USERPROFILE`.
pub fn home_dir(home: Option<String>, user_profile: Option<String>) -> (folder: Option<String>)
    ensures
        folder.deep_view() == home_folder(home.deep_view(), user_profile.deep_view()),
{
    match home {
        Some(folder) => Some(folder),
        None => user_profile,
    }
}

/// The user's documents folder, below the home folder `home`.
pub fn document_dir(home: Option<String>) -> (folder: Option<String>)
    ensures
        folder.deep_view() == documents_folder(home.deep_view()),
{
    match home {
        Some(folder) => Some(join_path(folder.as_str(), "Documents")),
        None => None,
    }
}

/// Where the inbox lies unless the user says otherwise.
pub fn dirs_default_inbox(documents: Option<String>, home: Option<String>) -> (inbox: String)
    ensures
        inbox@ == default_inbox_path(documents.deep_view(), home.deep_view()),
{
    match documents {
        Some(folder) => join_path(folder.as_str(), "Inmobiliaria Inbox"),
        None => match home {
            Some(folder) => join_path(folder.as_str(), "Inmobiliaria Inbox"),
            None => join_path(".", "Inmobiliaria Inbox"),
        },
    }
}

/// The folder, below the inbox, that uploaded files are moved to.
pub fn uploaded_subfolder(inbox_path: &str) -> (folder: String)
    ensures
        folder@ == archive_folder(inbox_path@),
{
    join_path(inbox_path, "Subidos")
}

/// The settings in memory, and the file they are kept in.
pub struct ConfigManager {
    config: AppConfig,
    config_path: String,
}

/// What a [`ConfigManager`] holds.
pub struct ConfigState {
    pub config: Settings,
    pub config_path: Seq<char>,
}

impl View for ConfigManager {
    type V = ConfigState;

    closed spec fn view(&self) -> ConfigState {
        ConfigState { config: self.config@, config_path: self.config_path@ }
    }
}

impl ConfigManager {
    /// A manager for the settings file below `app_data_dir`. `stored` is
    /// what that file held, if it could be read and understood; `fallback`
    /// takes its place otherwise.
    pub fn new(app_data_dir: &str, stored: Option<AppConfig>, fallback: AppConfig) -> (manager: Self)
        ensures
            manager@.config_path == settings_file(app_data_dir@),
            manager@.config == match stored {
                Some(config) => config@,
                None => fallback@,
            },
    {
        let config_path = join_path(app_data_dir, "config.json");
        let config = match stored {
            Some(config) => config,
            None => fallback,
        };
        ConfigManager { config, config_path }
    }

    /// The file the settings are kept in.
    pub fn config_path(&self) -> (path: &str)
        ensures
            path@ == self@.config_path,
    {
        self.config_path.as_str()
    }

    /// The current settings.
    pub fn get(&self) -> (config: AppConfig)
        ensures
            config@ == self@.config,
    {
        self.config.clone()
    }

    /// Takes `new_config` as the current settings, once it has been written
    /// to the settings file.
    pub fn save(&mut self, new_config: AppConfig)
        ensures
            final(self)@ == (ConfigState { config: new_config@, ..old(self)@ }),
    {
        self.config = new_config;
    }

    /// The current settings with the server at `url`.
    pub fn with_server_url(&self, url: &str) -> (config: AppConfig)
        ensures
            config@ == (Settings { server_url: url@, ..self@.config }),
    {
        let mut config = self.get();
        config.server_url = url.to_owned();
        config
    }

    /// Points the current settings at the server at `url`.
    pub fn update_server_url(&mut self, url: &str)
        ensures
            final(self)@ == (ConfigState {
                config: Settings { server_url: url@, ..old(self)@.config },
                ..old(self)@
            }),
    {
        let config = self.with_server_url(url);
        self.save(config);
    }
}

} // verus!
