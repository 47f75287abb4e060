//! Trusted filesystem primitives.  Each function wraps one outside call and
//! converts its result to plain values; everything the library decides from
//! these results is verified in the callers.  What the filesystem holds is
//! outside the logic, so the wrappers promise nothing about it.

use vstd::prelude::*;

use std::io::Write;

verus! {

#[verifier::external_type_specification]
#[verifier::external_body]
pub struct ExIoError(std::io::Error);

#[verifier::external_type_specification]
#[verifier::external_body]
pub struct ExTempDir(tempfile::TempDir);

/// What kind of object sits at a path.
#[derive(Debug, Clone, Copy)]
pub enum FsStat {
    /// Nothing is there.
    Missing,
    /// A non-directory of the given length (a regular file or a symlink).
    File { size: u64 },
    /// A directory.
    Dir,
}

/// Relies on fs_err::symlink_metadata: the kind and length of the object at
/// `path`, without following a final symlink.  A not-found error is
/// normalized to `FsStat::Missing`.
#[verifier::external_body]
pub fn stat(path: &str) -> (r: Result<FsStat, std::io::Error>) {
    match fs_err::symlink_metadata(path) {
        Ok(m) => {
            if m.is_dir() {
                Ok(FsStat::Dir)
            } else {
                Ok(FsStat::File { size: m.len() })
            }
        },
        Err(e) if e.kind() == std::io::ErrorKind::NotFound => Ok(FsStat::Missing),
        Err(e) => Err(e),
    }
}

/// Relies on fs_err::remove_file: deletes the file or symlink at `path`.
#[verifier::external_body]
pub fn remove_file(path: &str) -> (r: Result<(), std::io::Error>) {
    fs_err::remove_file(path)
}

/// Relies on fs_err::remove_dir: deletes the empty directory at `path`.
#[verifier::external_body]
pub fn remove_dir(path: &str) -> (r: Result<(), std::io::Error>) {
    fs_err::remove_dir(path)
}

/// Relies on fs_err::read_dir: the names of the immediate children of the
/// directory at `path`; a name that is not UTF-8 is an error.
#[verifier::external_body]
pub fn list_dir(path: &str) -> (r: Result<Vec<String>, std::io::Error>) {
    let mut names = Vec::new();
    for entry in fs_err::read_dir(path)? {
        match entry?.file_name().into_string() {
            Ok(name) => names.push(name),
            Err(_) => {
                return Err(std::io::Error::new(std::io::ErrorKind::InvalidData,
                    "Invalid UTF-8 path"));
            },
        }
    }
    Ok(names)
}

/// Relies on fs_err::create_dir_all: creates the directory at `path` and any
/// missing ancestors; an already existing directory is no error.
#[verifier::external_body]
pub fn create_dir_all(path: &str) -> (r: Result<(), std::io::Error>) {
    fs_err::create_dir_all(path)
}

/// Relies on fs_err::write: writes `contents` verbatim to the file at
/// `path`, creating or truncating it.
#[verifier::external_body]
pub fn write_file(path: &str, contents: &[u8]) -> (r: Result<(), std::io::Error>) {
    fs_err::write(path, contents)
}

/// Relies on fs_err::read: the full contents of the file at `path`.
#[verifier::external_body]
pub fn read_file(path: &str) -> (r: Result<Vec<u8>, std::io::Error>) {
    fs_err::read(path)
}

/// Relies on std::path::Path::exists: whether anything sits at `path`.
#[verifier::external_body]
pub fn path_exists(path: &str) -> (r: bool) {
    std::path::Path::new(path).exists()
}

/// Relies on fs_err::OpenOptions with create_new, and File::write_all:
/// creates the file at `path` with the given contents only if it does not
/// exist yet.  Returns `Ok(true)` if the file was created and written,
/// `Ok(false)` if a file was already there (which is left untouched).
#[verifier::external_body]
pub fn create_file_exclusive(path: &str, contents: &[u8]) -> (r: Result<bool, std::io::Error>) {
    match fs_err::OpenOptions::new().write(true).create_new(true).open(path) {
        Ok(mut f) => {
            f.write_all(contents)?;
            Ok(true)
        },
        Err(e) if e.kind() == std::io::ErrorKind::AlreadyExists => Ok(false),
        Err(e) => Err(e),
    }
}

/// Relies on std::io::Error::new: an I/O error, of the catch-all kind, with
/// the given message.
#[verifier::external_body]
pub fn io_error_other(msg: &str) -> (r: std::io::Error) {
    std::io::Error::new(std::io::ErrorKind::Other, msg.to_owned())
}

/// Relies on camino::Utf8Path::canonicalize_utf8: the absolute, resolved
/// form of `path`, which must exist.
#[verifier::external_body]
pub fn canonicalize(path: &str) -> (r: Result<String, std::io::Error>) {
    camino::Utf8Path::new(path)
        .canonicalize_utf8()
        .map(|p| p.into_string())
        .map_err(std::io::Error::other)
}

/// Relies on tempfile::tempdir: a fresh temporary directory, deleted when
/// the last shared handle is dropped, and its path.
#[verifier::external_body]
pub fn temp_dir_create() -> (r: Result<(std::sync::Arc<tempfile::TempDir>, String), std::io::Error>) {
    let dir = tempfile::tempdir()?;
    match dir.path().to_str() {
        Some(p) => {
            let path = p.to_owned();
            Ok((std::sync::Arc::new(dir), path))
        },
        None => Err(std::io::Error::new(std::io::ErrorKind::InvalidData, "Invalid UTF-8 path")),
    }
}

} // verus!
