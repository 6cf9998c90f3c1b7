//! The storage boundary: the few filesystem calls the library makes, each
//! behind a small trusted wrapper, and the error type they surface.
//!
//! Every wrapper runs one asynchronous filesystem operation of tokio to
//! completion on a runtime of its own, and maps the I/O error, when there is
//! one, onto [`StorageError`]. What a call returns depends on the state of
//! the disk, so the contracts promise nothing about which outcome comes
//! back; the verified callers handle every outcome.

use vstd::prelude::*;

use tokio::io::AsyncReadExt;
use tokio::io::AsyncSeekExt;
use tokio::io::AsyncWriteExt;

verus! {

/// Why a storage operation failed.
#[derive(Debug)]
pub enum StorageError {
    /// A write was attempted while no path was ever assigned.
    NoTarget,
    /// The filesystem refused access to the path.
    AccessDenied,
    /// Any other I/O failure, with its message.
    Other(String),
}

/// What opening an existing file for read and write came to.
pub enum OpenOutcome {
    /// The file exists and is now held open.
    Opened(tokio::fs::File),
    /// Nothing exists at the path; absence is an expected state, not an error.
    Absent,
    /// The open failed for a reason other than absence.
    Failed(StorageError),
}

#[verifier::external_type_specification]
#[verifier::external_body]
pub struct ExFile(tokio::fs::File);

/// Relies on `tokio::fs::OpenOptions::open` with `read(true).write(true)`
/// and no `create`: it opens the file at `path` when one exists, reports
/// `NotFound` when none does, and another error kind otherwise.
#[verifier::external_body]
pub(crate) fn open_rw(path: &String) -> (r: OpenOutcome)
    ensures
        r matches OpenOutcome::Failed(e) ==> !(e is NoTarget),
{
    let rt = match tokio::runtime::Builder::new_current_thread().build() {
        Ok(rt) => rt,
        Err(e) => return OpenOutcome::Failed(StorageError::Other(e.to_string())),
    };
    match rt.block_on(tokio::fs::OpenOptions::new().read(true).write(true).open(path)) {
        Ok(fd) => OpenOutcome::Opened(fd),
        Err(e) => match e.kind() {
            std::io::ErrorKind::NotFound => OpenOutcome::Absent,
            std::io::ErrorKind::PermissionDenied => OpenOutcome::Failed(StorageError::AccessDenied),
            _ => OpenOutcome::Failed(StorageError::Other(e.to_string())),
        },
    }
}

/// Relies on `tokio::fs::OpenOptions::open` with
/// `read(true).write(true).create(true)`: it creates the file at `path`
/// when none exists, opens it read/write, and fails otherwise.
#[verifier::external_body]
pub(crate) fn create_rw(path: &String) -> (r: Result<tokio::fs::File, StorageError>)
    ensures
        r matches Err(e) ==> !(e is NoTarget),
{
    let rt = match tokio::runtime::Builder::new_current_thread().build() {
        Ok(rt) => rt,
        Err(e) => return Err(StorageError::Other(e.to_string())),
    };
    match rt.block_on(tokio::fs::OpenOptions::new().read(true).write(true).create(true).open(path)) {
        Ok(fd) => Ok(fd),
        Err(e) => match e.kind() {
            std::io::ErrorKind::PermissionDenied => Err(StorageError::AccessDenied),
            _ => Err(StorageError::Other(e.to_string())),
        },
    }
}

/// Relies on `tokio::io::AsyncReadExt::read_to_string`: it reads everything
/// from the handle's current position to the end of the file, as UTF-8 text.
#[verifier::external_body]
pub(crate) fn read_all(fd: &mut tokio::fs::File) -> (r: Result<String, StorageError>)
    ensures
        r matches Err(e) ==> !(e is NoTarget),
{
    let rt = match tokio::runtime::Builder::new_current_thread().build() {
        Ok(rt) => rt,
        Err(e) => return Err(StorageError::Other(e.to_string())),
    };
    let mut dst = String::new();
    match rt.block_on(fd.read_to_string(&mut dst)) {
        Ok(_) => Ok(dst),
        Err(e) => match e.kind() {
            std::io::ErrorKind::PermissionDenied => Err(StorageError::AccessDenied),
            _ => Err(StorageError::Other(e.to_string())),
        },
    }
}

/// Relies on `tokio::io::AsyncSeekExt::rewind`: it moves the handle's
/// position back to the start of the file.
#[verifier::external_body]
pub(crate) fn rewind_start(fd: &mut tokio::fs::File) -> (r: Result<(), StorageError>)
    ensures
        r matches Err(e) ==> !(e is NoTarget),
{
    let rt = match tokio::runtime::Builder::new_current_thread().build() {
        Ok(rt) => rt,
        Err(e) => return Err(StorageError::Other(e.to_string())),
    };
    match rt.block_on(fd.rewind()) {
        Ok(_) => Ok(()),
        Err(e) => match e.kind() {
            std::io::ErrorKind::PermissionDenied => Err(StorageError::AccessDenied),
            _ => Err(StorageError::Other(e.to_string())),
        },
    }
}

/// Relies on `tokio::fs::File::set_len` with length zero: it truncates the
/// file to nothing, leaving the handle's position where it was.
#[verifier::external_body]
pub(crate) fn truncate_all(fd: &mut tokio::fs::File) -> (r: Result<(), StorageError>)
    ensures
        r matches Err(e) ==> !(e is NoTarget),
{
    let rt = match tokio::runtime::Builder::new_current_thread().build() {
        Ok(rt) => rt,
        Err(e) => return Err(StorageError::Other(e.to_string())),
    };
    match rt.block_on(fd.set_len(0)) {
        Ok(_) => Ok(()),
        Err(e) => match e.kind() {
            std::io::ErrorKind::PermissionDenied => Err(StorageError::AccessDenied),
            _ => Err(StorageError::Other(e.to_string())),
        },
    }
}

/// Relies on `tokio::io::AsyncWriteExt::write_all`: it writes every byte of
/// `text` at the handle's current position.
#[verifier::external_body]
pub(crate) fn write_all_text(fd: &mut tokio::fs::File, text: &String) -> (r: Result<(), StorageError>)
    ensures
        r matches Err(e) ==> !(e is NoTarget),
{
    let rt = match tokio::runtime::Builder::new_current_thread().build() {
        Ok(rt) => rt,
        Err(e) => return Err(StorageError::Other(e.to_string())),
    };
    match rt.block_on(fd.write_all(text.as_bytes())) {
        Ok(_) => Ok(()),
        Err(e) => match e.kind() {
            std::io::ErrorKind::PermissionDenied => Err(StorageError::AccessDenied),
            _ => Err(StorageError::Other(e.to_string())),
        },
    }
}

/// Relies on `tokio::io::AsyncWriteExt::flush`: it pushes any buffered
/// bytes of the handle down to the operating system.
#[verifier::external_body]
pub(crate) fn flush_file(fd: &mut tokio::fs::File) -> (r: Result<(), StorageError>)
    ensures
        r matches Err(e) ==> !(e is NoTarget),
{
    let rt = match tokio::runtime::Builder::new_current_thread().build() {
        Ok(rt) => rt,
        Err(e) => return Err(StorageError::Other(e.to_string())),
    };
    match rt.block_on(fd.flush()) {
        Ok(_) => Ok(()),
        Err(e) => match e.kind() {
            std::io::ErrorKind::PermissionDenied => Err(StorageError::AccessDenied),
            _ => Err(StorageError::Other(e.to_string())),
        },
    }
}

} // verus!
