//! The per-user directories of the application, as the `directories` crate
//! finds them, and the files that the viewer keeps in them.

use crate::paths::{join_path, path_join, text_of};
use directories::ProjectDirs;
use vstd::prelude::*;

verus! {

/// The three parts of the application's identifier, from which its
/// directories are derived.
pub const QUALIFIER: &'static str = "com";

pub const ORGANIZATION: &'static str = "glance";

pub const APPLICATION: &'static str = "glance";

/// The name of the endpoint within its directory.
pub const SOCKET_FILE_NAME: &'static str = "glance.sock";

/// The name of the file that keeps the window's place and size.
pub const WINDOW_STATE_FILE_NAME: &'static str = "window.json";

/// The name of the settings file.
pub const CONFIG_FILE_NAME: &'static str = "config.toml";

/// `directories::ProjectDirs`: the directories of one application for one
/// user. The library carries such a value from one call to the next and
/// never looks inside.
#[verifier::external_type_specification]
#[verifier::external_body]
pub struct ExProjectDirs(ProjectDirs);

/// `ProjectDirs::from`. What comes back depends on the user's environment:
/// nothing is claimed of it.
#[verifier::external_body]
fn project_dirs(qualifier: &str, organization: &str, application: &str) -> (r: Option<
    ProjectDirs,
>) {
    ProjectDirs::from(qualifier, organization, application)
}

/// `ProjectDirs::runtime_dir`, as text. Nothing is claimed of it.
#[verifier::external_body]
fn runtime_dir_of(dirs: &ProjectDirs) -> (r: Option<String>) {
    match dirs.runtime_dir() {
        Some(dir) => Some(dir.to_string_lossy().into_owned()),
        None => None,
    }
}

/// `ProjectDirs::cache_dir`, as text. Nothing is claimed of it.
#[verifier::external_body]
fn cache_dir_of(dirs: &ProjectDirs) -> (r: String) {
    dirs.cache_dir().to_string_lossy().into_owned()
}

/// `ProjectDirs::config_dir`, as text. Nothing is claimed of it.
#[verifier::external_body]
fn config_dir_of(dirs: &ProjectDirs) -> (r: String) {
    dirs.config_dir().to_string_lossy().into_owned()
}

/// The directory of the endpoint: the user's runtime directory where there
/// is one, else the cache directory.
pub fn endpoint_dir<T>(runtime_dir: Option<T>, cache_dir: T) -> (r: T)
    ensures
        r == (match runtime_dir {
            Some(dir) => dir,
            None => cache_dir,
        }),
{
    match runtime_dir {
        Some(dir) => dir,
        None => cache_dir,
    }
}

/// The path of the endpoint, given the user's runtime directory, if there is
/// one, and cache directory.
pub open spec fn socket_path_of(runtime_dir: Option<Seq<char>>, cache_dir: Seq<char>) -> Seq<
    char,
> {
    path_join(
        match runtime_dir {
            Some(dir) => dir,
            None => cache_dir,
        },
        SOCKET_FILE_NAME@,
    )
}

/// The path of the endpoint, given the user's runtime directory, if there is
/// one, and cache directory.
pub fn socket_path_in(runtime_dir: Option<String>, cache_dir: String) -> (r: String)
    ensures
        r@ == socket_path_of(text_of(runtime_dir), cache_dir@),
{
    let dir = endpoint_dir(runtime_dir, cache_dir);
    join_path(dir.as_str(), SOCKET_FILE_NAME)
}

/// The path of the endpoint on this machine, for this user. There is none
/// where the user has no home directory.
pub fn socket_path() -> (r: Option<String>)
    ensures
        match r {
            Some(path) => exists|runtime_dir: Option<Seq<char>>, cache_dir: Seq<char>|
                path@ == #[trigger] socket_path_of(runtime_dir, cache_dir),
            None => true,
        },
{
    match project_dirs(QUALIFIER, ORGANIZATION, APPLICATION) {
        Some(dirs) => {
            let runtime_dir = runtime_dir_of(&dirs);
            let cache_dir = cache_dir_of(&dirs);
            let ghost runtime_text = text_of(runtime_dir);
            let ghost cache_text = cache_dir@;
            let path = socket_path_in(runtime_dir, cache_dir);
            proof {
                assert(path@ == socket_path_of(runtime_text, cache_text));
            }
            Some(path)
        },
        None => None,
    }
}

/// The path of the file called `name` in the configuration directory, where
/// there is such a directory.
pub open spec fn config_file_of(config_dir: Option<Seq<char>>, name: Seq<char>) -> Option<
    Seq<char>,
> {
    match config_dir {
        Some(dir) => Some(path_join(dir, name)),
        None => None,
    }
}

/// The path of the file called `name` in the configuration directory
/// `config_dir`. There is none where there is no such directory.
pub fn config_file_in(config_dir: Option<String>, name: &str) -> (r: Option<String>)
    ensures
        text_of(r) == config_file_of(text_of(config_dir), name@),
{
    match config_dir {
        Some(dir) => Some(join_path(dir.as_str(), name)),
        None => None,
    }
}

/// The path of the file called `name` in the application's configuration
/// directory on this machine, for this user.
fn config_file(name: &str) -> (r: Option<String>)
    ensures
        match r {
            Some(path) => exists|config_dir: Seq<char>|
                path@ == #[trigger] path_join(config_dir, name@),
            None => true,
        },
{
    let config_dir = match project_dirs(QUALIFIER, ORGANIZATION, APPLICATION) {
        Some(dirs) => Some(config_dir_of(&dirs)),
        None => None,
    };
    let ghost dir_text = text_of(config_dir);
    let path = config_file_in(config_dir, name);
    proof {
        if let Some(dir) = dir_text {
            assert(text_of(path) == Some(path_join(dir, name@)));
        }
    }
    path
}

/// The path of the file that keeps the window's place and size.
pub fn window_state_path() -> (r: Option<String>)
    ensures
        match r {
            Some(path) => exists|config_dir: Seq<char>|
                path@ == #[trigger] path_join(config_dir, WINDOW_STATE_FILE_NAME@),
            None => true,
        },
{
    config_file(WINDOW_STATE_FILE_NAME)
}

/// The path of the settings file.
pub fn config_path() -> (r: Option<String>)
    ensures
        match r {
            Some(path) => exists|config_dir: Seq<char>|
                path@ == #[trigger] path_join(config_dir, CONFIG_FILE_NAME@),
            None => true,
        },
{
    config_file(CONFIG_FILE_NAME)
}

} // verus!
