use vstd::prelude::*;

use crate::errors::{DearyError, ErrorKind};
use crate::store::{
    repo_authors, repo_commits, repo_config_map, repo_gpg_id_bytes, repo_head_paths, repo_staged,
    repo_work_dir,
};
use std::io::Write;

verus! {

#[verifier::external_type_specification]
#[verifier::external_body]
pub struct ExIoError(std::io::Error);

/// One scoped temporary file of the staging area, holding plaintext
/// while an entry is edited. The underlying tempfile::NamedTempFile
/// removes the file from disk when this value is dropped, on success
/// and failure paths alike.
#[verifier::external_body]
pub struct TempSlot {
    file: tempfile::NamedTempFile,
}

/// The bytes these wrappers have written into the staging file (its
/// content at hand-off; what an editor does to the file afterwards is
/// the caller's report to make).
pub uninterp spec fn slot_bytes(t: TempSlot) -> Seq<u8>;

/// Relies on tempfile::NamedTempFile::new_in: creates a fresh,
/// uniquely named, empty temporary file inside `dir`.
#[verifier::external_body]
pub(crate) fn temp_in(dir: &str) -> (res: Result<TempSlot, std::io::Error>)
    ensures
        res is Ok ==> slot_bytes(res->Ok_0) == Seq::<u8>::empty(),
{
    match tempfile::NamedTempFile::new_in(std::path::Path::new(dir)) {
        Ok(file) => Ok(TempSlot { file }),
        Err(e) => Err(e),
    }
}

/// Relies on tempfile::NamedTempFile::path: the location of the
/// temporary file while it exists.
#[verifier::external_body]
pub(crate) fn temp_path(t: &TempSlot) -> String {
    t.file.path().to_string_lossy().into_owned()
}

/// Relies on std::io::Write::write_all on the underlying file
/// (through tempfile::NamedTempFile::as_file_mut): writes the whole
/// buffer at the cursor, which these wrappers only ever leave at the
/// end, so the content is extended by exactly the buffer. A failure
/// may leave part of the buffer written, so nothing is claimed then.
#[verifier::external_body]
pub(crate) fn temp_write(t: &mut TempSlot, data: &[u8]) -> (res: Result<(), std::io::Error>)
    ensures
        res is Ok ==> slot_bytes(*final(t)) == slot_bytes(*old(t)) + data@,
{
    t.file.as_file_mut().write_all(data)
}

/// Relies on git2::Repository::workdir and
/// tempfile::NamedTempFile::persist: atomically installs the staged
/// temporary file — with exactly the bytes written into it — as the
/// reserved `.gpg_id` metadata file of the repository's working
/// directory, replacing any file already there. A rename touches no
/// other repository state; on failure the temporary file is dropped
/// and removed, and the metadata file is left as it was.
#[verifier::external_body]
pub(crate) fn install_gpg_id(r: &mut git2::Repository, slot: TempSlot) -> (res: Result<
    (),
    std::io::Error,
>)
    ensures
        res is Ok ==> repo_gpg_id_bytes(*final(r)) == slot_bytes(slot),
        res is Err ==> repo_gpg_id_bytes(*final(r)) == repo_gpg_id_bytes(*old(r)),
        repo_commits(*final(r)) == repo_commits(*old(r)),
        repo_authors(*final(r)) == repo_authors(*old(r)),
        repo_staged(*final(r)) == repo_staged(*old(r)),
        repo_head_paths(*final(r)) == repo_head_paths(*old(r)),
        repo_config_map(*final(r)) == repo_config_map(*old(r)),
        repo_work_dir(*final(r)) == repo_work_dir(*old(r)),
{
    let dir = match r.workdir() {
        Some(p) => p.to_path_buf(),
        None => { return Err(std::io::Error::other("the repository has no working directory")); },
    };
    match slot.file.persist(dir.join(".gpg_id")) {
        Ok(_) => Ok(()),
        Err(e) => Err(e.error),
    }
}

/// Relies on the Display of std::io::Error: the human-readable
/// description.
#[verifier::external_body]
pub(crate) fn io_error_message(e: &std::io::Error) -> String {
    e.to_string()
}

/// Wrap a filesystem failure.
pub(crate) fn io_failure(e: &std::io::Error) -> (r: DearyError)
    ensures
        r.kind == ErrorKind::IoFailure,
        r.status is None,
{
    let msg = io_error_message(e);
    DearyError::with_kind(ErrorKind::IoFailure, msg.as_str())
}

} // verus!
