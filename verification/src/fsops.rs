//! Trusted boundary to the filesystem and to pattern expansion.
//!
//! What these calls do depends on what is on disk, so no contract here pins
//! a result down; each wrapper only fixes which kind of failure it reports.
//! The engine is verified to sequence them as the storage layout demands and
//! to keep its index contracts whatever they return.

use vstd::prelude::*;

use crate::errors::CacheError;

verus! {

/// Relies on `fs_extra::dir::create_all`: creates the directory and any
/// missing parents, and leaves an existing directory in place.
#[verifier::external_body]
pub(crate) fn fs_create_dir_all(path: &String) -> (r: Result<(), CacheError>)
    ensures
        r is Err ==> r->Err_0 is FilesystemFailure,
{
    fs_extra::dir::create_all(path, false).map_err(|e| CacheError::FilesystemFailure(e.to_string()))
}

/// Relies on `fs_extra::remove_items`: removes each listed file or directory
/// tree, treating one that does not exist as already removed.
#[verifier::external_body]
pub(crate) fn fs_remove_paths(paths: &Vec<String>) -> (r: Result<(), CacheError>)
    ensures
        r is Err ==> r->Err_0 is FilesystemFailure,
{
    fs_extra::remove_items(paths.as_slice()).map_err(
        |e| CacheError::FilesystemFailure(e.to_string()),
    )
}

/// Relies on `fs_extra::file::write_all`: creates or overwrites the file
/// with exactly the given text.
#[verifier::external_body]
pub(crate) fn fs_write_text(path: &String, contents: &String) -> (r: Result<(), CacheError>)
    ensures
        r is Err ==> r->Err_0 is FilesystemFailure,
{
    fs_extra::file::write_all(path, contents.as_str()).map_err(
        |e| CacheError::FilesystemFailure(e.to_string()),
    )
}

/// Relies on `fs_extra::file::read_to_string`: returns the file's contents
/// as text, or an error where it is absent or unreadable.
#[verifier::external_body]
pub(crate) fn fs_read_text(path: &String) -> (r: Result<String, CacheError>)
    ensures
        r is Err ==> r->Err_0 is FilesystemFailure,
{
    fs_extra::file::read_to_string(path).map_err(
        |e| CacheError::FilesystemFailure(e.to_string()),
    )
}

/// Relies on `fs_extra::dir::get_dir_content2` at depth one: the
/// `directories` it reports are the queried directory itself and the
/// directories, not files, that stand directly inside it, each as a full
/// path.
#[verifier::external_body]
pub(crate) fn fs_list_dirs(path: &String) -> (r: Result<Vec<String>, CacheError>)
    ensures
        r is Err ==> r->Err_0 is FilesystemFailure,
{
    let mut options = fs_extra::dir::DirOptions::new();
    options.depth = 1;
    let content = fs_extra::dir::get_dir_content2(path, &options).map_err(
        |e| CacheError::FilesystemFailure(e.to_string()),
    )?;
    Ok(content.directories)
}

/// Relies on `fs_extra::dir::copy` with `content_only`, `copy_inside` and
/// `overwrite` set: copies the contents of the source directory onto the
/// destination, creating missing directories and overwriting existing
/// files.
#[verifier::external_body]
pub(crate) fn fs_copy_tree_contents(src: &String, dst: &String) -> (r: Result<(), CacheError>)
    ensures
        r is Err ==> r->Err_0 is FilesystemFailure,
{
    let mut options = fs_extra::dir::CopyOptions::new();
    options.overwrite = true;
    options.copy_inside = true;
    options.content_only = true;
    fs_extra::dir::copy(src, dst, &options).map(|_| ()).map_err(
        |e| CacheError::FilesystemFailure(e.to_string()),
    )
}

/// Relies on `fs_extra::file::copy` with `overwrite` set: copies one file
/// over the destination path, whose parent directory must exist.
#[verifier::external_body]
pub(crate) fn fs_copy_file(src: &String, dst: &String) -> (r: Result<(), CacheError>)
    ensures
        r is Err ==> r->Err_0 is FilesystemFailure,
{
    let mut options = fs_extra::file::CopyOptions::new();
    options.overwrite = true;
    fs_extra::file::copy(src, dst, &options).map(|_| ()).map_err(
        |e| CacheError::FilesystemFailure(e.to_string()),
    )
}

/// Relies on `std::path::Path::exists`: whether something currently stands
/// at the path.
#[verifier::external_body]
pub(crate) fn path_exists(path: &String) -> bool {
    std::path::Path::new(path.as_str()).exists()
}

/// Relies on `std::path::Path::is_dir`: whether the path currently names a
/// directory.
#[verifier::external_body]
pub(crate) fn path_is_dir(path: &String) -> bool {
    std::path::Path::new(path.as_str()).is_dir()
}

/// Relies on `glob::glob`: resolves one glob pattern to the full paths that
/// currently exist and match it, and fails exactly on a malformed pattern.
#[verifier::external_body]
pub(crate) fn glob_matches(pattern: &String) -> (r: Result<Vec<String>, CacheError>)
    ensures
        r is Err ==> r->Err_0 is ExpansionFailure,
{
    let paths = glob::glob(pattern.as_str()).map_err(
        |e| CacheError::ExpansionFailure(e.to_string()),
    )?;
    let paths: Result<Vec<std::path::PathBuf>, glob::GlobError> = paths.collect();
    let paths = paths.map_err(|e| CacheError::ExpansionFailure(e.to_string()))?;
    Ok(paths.iter().map(|p| p.to_string_lossy().into_owned()).collect())
}

} // verus!
