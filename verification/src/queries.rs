//! The external lookups the applet makes: the platform's well-known
//! directories, the filesystem's answer for a favorite's path, and whether the
//! trash holds anything. Each outside call sits in a trusted wrapper; what the
//! answers mean for the model is decided by the verified functions that take
//! them as arguments, since the answers themselves depend on the machine.

use vstd::prelude::*;

use crate::config::{Favorite, WellKnownDirs};
use crate::nav::FsStatus;

verus! {

/// Relies on dirs::home_dir: the user's home directory, if the platform
/// reports one; a path that is not valid Unicode counts as absent.
#[verifier::external_body]
fn home_dir_query() -> (r: Option<String>) {
    match dirs::home_dir() {
        Some(p) => p.into_os_string().into_string().ok(),
        None => None,
    }
}

/// Relies on dirs::document_dir, as [`home_dir_query`] relies on its function.
#[verifier::external_body]
fn document_dir_query() -> (r: Option<String>) {
    match dirs::document_dir() {
        Some(p) => p.into_os_string().into_string().ok(),
        None => None,
    }
}

/// Relies on dirs::download_dir, as [`home_dir_query`] relies on its function.
#[verifier::external_body]
fn download_dir_query() -> (r: Option<String>) {
    match dirs::download_dir() {
        Some(p) => p.into_os_string().into_string().ok(),
        None => None,
    }
}

/// Relies on dirs::audio_dir, as [`home_dir_query`] relies on its function.
#[verifier::external_body]
fn audio_dir_query() -> (r: Option<String>) {
    match dirs::audio_dir() {
        Some(p) => p.into_os_string().into_string().ok(),
        None => None,
    }
}

/// Relies on dirs::picture_dir, as [`home_dir_query`] relies on its function.
#[verifier::external_body]
fn picture_dir_query() -> (r: Option<String>) {
    match dirs::picture_dir() {
        Some(p) => p.into_os_string().into_string().ok(),
        None => None,
    }
}

/// Relies on dirs::video_dir, as [`home_dir_query`] relies on its function.
#[verifier::external_body]
fn video_dir_query() -> (r: Option<String>) {
    match dirs::video_dir() {
        Some(p) => p.into_os_string().into_string().ok(),
        None => None,
    }
}

/// Relies on dirs::desktop_dir, as [`home_dir_query`] relies on its function.
#[verifier::external_body]
fn desktop_dir_query() -> (r: Option<String>) {
    match dirs::desktop_dir() {
        Some(p) => p.into_os_string().into_string().ok(),
        None => None,
    }
}

/// Relies on dirs::public_dir, as [`home_dir_query`] relies on its function.
#[verifier::external_body]
fn public_dir_query() -> (r: Option<String>) {
    match dirs::public_dir() {
        Some(p) => p.into_os_string().into_string().ok(),
        None => None,
    }
}

/// Relies on dirs::template_dir, as [`home_dir_query`] relies on its function.
#[verifier::external_body]
fn template_dir_query() -> (r: Option<String>) {
    match dirs::template_dir() {
        Some(p) => p.into_os_string().into_string().ok(),
        None => None,
    }
}

/// Relies on std::path::Path::is_dir: whether the path names an existing
/// directory, by a metadata query that follows symlinks.
#[verifier::external_body]
fn path_is_dir(path: &String) -> (r: bool) {
    std::path::Path::new(path).is_dir()
}

/// Relies on std::path::Path::exists: whether anything exists at the path, by
/// a metadata query that follows symlinks.
#[verifier::external_body]
fn path_exists(path: &String) -> (r: bool) {
    std::path::Path::new(path).exists()
}

/// Relies on trash::os_limited::is_empty: whether the trash holds at least one
/// item, reported as `None` when the query fails. `is_empty` only looks for a
/// first entry in each trash bin's `files/` directory and never parses the
/// per-item metadata files, whose malformed contents make the crate's full
/// listing abort; locating the bins still reads the mount table, where a
/// non-Unicode entry would abort, but the kernel octal-escapes that table.
#[verifier::external_body]
fn trash_is_empty_query() -> (r: Option<bool>) {
    match trash::os_limited::is_empty() {
        Ok(empty) => Some(empty),
        Err(_) => None,
    }
}

/// Query every well-known directory once; the table is immutable afterwards.
/// What each field holds depends on the platform, so nothing more is promised
/// of the answers.
pub fn query_well_known_dirs() -> WellKnownDirs {
    WellKnownDirs {
        home: home_dir_query(),
        documents: document_dir_query(),
        downloads: download_dir_query(),
        music: audio_dir_query(),
        pictures: picture_dir_query(),
        videos: video_dir_query(),
        desktop: desktop_dir_query(),
        public_share: public_dir_query(),
        templates: template_dir_query(),
    }
}

/// What two filesystem answers mean for a path: a directory when the first
/// says so, otherwise a file when anything exists there, otherwise missing.
pub fn fs_status_from(is_dir: bool, exists: bool) -> (r: FsStatus)
    ensures
        r == (if is_dir {
            FsStatus::Directory
        } else if exists {
            FsStatus::File
        } else {
            FsStatus::Missing
        }),
{
    if is_dir {
        FsStatus::Directory
    } else if exists {
        FsStatus::File
    } else {
        FsStatus::Missing
    }
}

/// Ask the filesystem what is at `path` right now. The answer races against
/// concurrent filesystem changes and is advisory only, so nothing is promised
/// of it.
pub fn query_fs_status(path: &String) -> FsStatus {
    let is_dir = path_is_dir(path);
    let exists = path_exists(path);
    fs_status_from(is_dir, exists)
}

/// Ask the filesystem about every favorite's resolved path, in order: one
/// answer per favorite, with an unresolvable tag marked missing (the builder
/// omits it for its unknown directory, never for this answer).
pub fn query_statuses(favorites: &Vec<Favorite>, dirs: &WellKnownDirs) -> (r: Vec<FsStatus>)
    ensures
        r@.len() == favorites@.len(),
        forall|k: int|
            0 <= k < favorites@.len() && crate::config::spec_favorite_path(
                favorites@[k]@,
                dirs@,
            ) is None ==> r@[k] == FsStatus::Missing,
{
    let mut out: Vec<FsStatus> = Vec::new();
    let n = favorites.len();
    let mut i: usize = 0;
    while i < n
        invariant
            n == favorites.len(),
            i <= n,
            out@.len() == i,
            forall|k: int|
                0 <= k < i && crate::config::spec_favorite_path(favorites@[k]@, dirs@) is None
                    ==> out@[k] == FsStatus::Missing,
        decreases n - i,
    {
        let st = match favorites[i].path_opt(dirs) {
            Some(p) => query_fs_status(&p),
            None => FsStatus::Missing,
        };
        out.push(st);
        i = i + 1;
    }
    out
}

/// Whether the trash holds anything right now; a failed query counts as an
/// empty trash. The answer depends on the machine, so nothing more is promised
/// of it.
pub fn query_trash_non_empty() -> bool {
    trash_non_empty_from_answer(trash_is_empty_query())
}

/// The trash state an emptiness query's answer stands for: non-empty exactly
/// when the query succeeded and found something, with a failed query counting
/// as empty.
pub fn trash_non_empty_from_answer(answer: Option<bool>) -> (r: bool)
    ensures
        r == (answer matches Some(empty) && !empty),
{
    match answer {
        Some(empty) => !empty,
        None => false,
    }
}

} // verus!
