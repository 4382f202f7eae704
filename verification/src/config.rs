//! The user's settings and the places where the application keeps its
//! files.

use crate::dirs::{app_dirs, path_join, user_dirs, AppDirs, Entry, UserDirs};
use crate::nav::Nav;
use std::path::PathBuf;
use vstd::prelude::*;

verus! {

/// The name under which the application keeps its directories.
pub const APP_NAME: &'static str = "Mangetsu";

/// Whether the directories are laid out on macOS as they are on Linux.
pub const USE_XDG_ON_MACOS: bool = false;

/// The name of the file that holds the settings.
pub const CONFIG_FILENAME: &'static str = "config.json";

/// The colour theme of the user interface.
#[derive(Copy, Clone, Debug, PartialEq, Eq, Structural)]
pub enum Theme {
    Light,
    Dark,
}

impl Default for Theme {
    /// The dark theme is the default.
    fn default() -> (r: Self)
        ensures
            r == Theme::Dark,
    {
        Theme::Dark
    }
}

impl Theme {
    /// The name of the theme.
    pub open spec fn name(self) -> Seq<char> {
        match self {
            Theme::Dark => "Dark"@,
            Theme::Light => "Light"@,
        }
    }

    /// The name of the theme, as the user interface shows it.
    pub fn to_string(&self) -> (r: String)
        ensures
            r@ == self.name(),
    {
        match self {
            Theme::Dark => "Dark".to_owned(),
            Theme::Light => "Light".to_owned(),
        }
    }

    /// The other theme.
    pub fn toggled(&self) -> (r: Self)
        ensures
            r == match *self {
                Theme::Dark => Theme::Light,
                Theme::Light => Theme::Dark,
            },
    {
        match self {
            Theme::Dark => Theme::Light,
            Theme::Light => Theme::Dark,
        }
    }
}

/// The user's settings.
#[derive(Debug)]
pub struct Config {
    pub theme: Theme,
    pub last_route: Option<Nav>,
}

impl Default for Config {
    /// The default theme, and no route visited yet.
    fn default() -> (r: Self)
        ensures
            r.theme == Theme::Dark,
            r.last_route is None,
    {
        Config { theme: Theme::Dark, last_route: None }
    }
}

impl Clone for Config {
    fn clone(&self) -> (r: Self)
        ensures
            r.theme == self.theme,
            r.last_route is Some == self.last_route is Some,
            r.last_route matches Some(route) ==> route@ == self.last_route->0@,
    {
        Config {
            theme: self.theme,
            last_route: match &self.last_route {
                Some(route) => Some(route.clone()),
                None => None,
            },
        }
    }
}

impl Config {
    fn app_dirs() -> Option<AppDirs> {
        app_dirs(APP_NAME, USE_XDG_ON_MACOS)
    }

    /// The cache directory among `dirs`, where the platform gave any.
    pub fn cache_dir_in(dirs: Option<AppDirs>) -> (r: Option<PathBuf>)
        ensures
            r == match dirs {
                Some(d) => Some(d.cache_dir),
                None => None,
            },
    {
        match dirs {
            Some(d) => Some(d.cache_dir),
            None => None,
        }
    }

    /// The configuration directory among `dirs`, where the platform gave
    /// any.
    pub fn config_dir_in(dirs: Option<AppDirs>) -> (r: Option<PathBuf>)
        ensures
            r == match dirs {
                Some(d) => Some(d.config_dir),
                None => None,
            },
    {
        match dirs {
            Some(d) => Some(d.config_dir),
            None => None,
        }
    }

    /// The directory for the application's cache, where the platform
    /// names one.
    pub fn cache_dir() -> Option<PathBuf> {
        Self::cache_dir_in(Self::app_dirs())
    }

    /// The directory for the application's settings, where the platform
    /// names one.
    pub fn config_dir() -> Option<PathBuf> {
        Self::config_dir_in(Self::app_dirs())
    }

    /// The directory into which chapters are downloaded: the one that
    /// carries the application's name among the user's documents, where
    /// the platform names those.
    pub fn download_dir() -> Option<PathBuf> {
        match Self::download_dir_in(user_dirs()) {
            Some(entry) => Some(path_join(&entry.dir, entry.name)),
            None => None,
        }
    }

    /// The file that holds the settings, where the platform names a
    /// directory for them.
    pub fn config_path() -> Option<PathBuf> {
        match Self::config_path_in(Self::config_dir()) {
            Some(entry) => Some(path_join(&entry.dir, entry.name)),
            None => None,
        }
    }

    /// Where chapters are downloaded to, given the user's directories:
    /// the entry that carries the application's name among the documents,
    /// where the platform gave those.
    pub fn download_dir_in(dirs: Option<UserDirs>) -> (r: Option<Entry>)
        ensures
            match dirs {
                Some(d) => r matches Some(entry) && entry.dir == d.document_dir && entry.name@
                    == APP_NAME@,
                None => r is None,
            },
    {
        match dirs {
            Some(d) => Some(Entry { dir: d.document_dir, name: APP_NAME }),
            None => None,
        }
    }

    /// Where the settings are kept, given the directory for them: the
    /// entry called after the settings file in that directory, where the
    /// platform gave one.
    pub fn config_path_in(dir: Option<PathBuf>) -> (r: Option<Entry>)
        ensures
            match dir {
                Some(d) => r matches Some(entry) && entry.dir == d && entry.name@
                    == CONFIG_FILENAME@,
                None => r is None,
            },
    {
        match dir {
            Some(d) => Some(Entry { dir: d, name: CONFIG_FILENAME }),
            None => None,
        }
    }
}

} // verus!
