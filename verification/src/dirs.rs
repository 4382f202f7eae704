//! Where the platform keeps an application's files.

use std::path::PathBuf;
use vstd::prelude::*;

verus! {

#[verifier::external_type_specification]
#[verifier::external_body]
pub struct ExPathBuf(PathBuf);

/// The directories that the platform gives an application for its cache
/// and for its configuration.
pub struct AppDirs {
    pub cache_dir: PathBuf,
    pub config_dir: PathBuf,
}

/// The user's own directories, of which the library uses the one for
/// documents.
pub struct UserDirs {
    pub document_dir: PathBuf,
}

/// An entry of a directory: the directory, and the name that the entry has
/// in it.
pub struct Entry {
    pub dir: PathBuf,
    pub name: &'static str,
}

/// `platform_dirs::AppDirs::new` for the application called `name`. What
/// comes back depends on the platform and on the environment, so nothing
/// is claimed of it.
#[verifier::external_body]
pub(crate) fn app_dirs(name: &str, use_xdg_on_macos: bool) -> Option<AppDirs> {
    match platform_dirs::AppDirs::new(Some(name), use_xdg_on_macos) {
        Some(dirs) => Some(AppDirs { cache_dir: dirs.cache_dir, config_dir: dirs.config_dir }),
        None => None,
    }
}

/// `platform_dirs::UserDirs::new`. What comes back depends on the platform
/// and on the environment, so nothing is claimed of it.
#[verifier::external_body]
pub(crate) fn user_dirs() -> Option<UserDirs> {
    match platform_dirs::UserDirs::new() {
        Some(dirs) => Some(UserDirs { document_dir: dirs.document_dir }),
        None => None,
    }
}

/// `Path::join`: `base` with `part` added as by the platform's rules for
/// paths, of which nothing is claimed.
#[verifier::external_body]
pub(crate) fn path_join(base: &PathBuf, part: &str) -> PathBuf {
    base.join(part)
}

} // verus!
