//! Where crash-recovery snapshots live, which stored files are snapshots, and
//! which of them have outlived the retention window.
use vstd::prelude::*;
use vstd::string::*;

use crate::paths::{extension_of, join_path, path_extension, path_join};

verus! {

/// Snapshots whose last modification lies further back than this many
/// seconds (seven days) are purged at startup.
pub const RECOVERY_RETENTION_SECS: u64 = 7 * 24 * 60 * 60;

/// What a listing of the recovery directory says of one of its entries.
#[derive(Debug)]
pub struct StoredFile {
    pub path: String,
    pub is_file: bool,
    /// Whole seconds since its last modification; `None` when that cannot be
    /// read or lies in the future.
    pub age_secs: Option<u64>,
}

/// The documents directory below the user's documents directory `user_dir`,
/// or a relative fallback when there is none.
pub open spec fn documents_dir_for(user_dir: Option<Seq<char>>) -> Seq<char> {
    match user_dir {
        Some(d) => path_join(d, "Trosyn"@),
        None => "./documents"@,
    }
}

/// The recovery directory inside the documents directory `documents_dir`.
pub open spec fn recovery_dir_for(documents_dir: Seq<char>) -> Seq<char> {
    path_join(documents_dir, ".recovery"@)
}

/// Name of the snapshot file of the document with identifier `doc_id`.
pub open spec fn recovery_file_name_for(doc_id: Seq<char>) -> Seq<char> {
    "recovery_"@ + doc_id + ".json"@
}

/// Whether a stored file is a snapshot: a regular file with a `json` extension.
pub open spec fn is_snapshot_file(f: StoredFile) -> bool {
    f.is_file && path_extension(f.path@) == Some("json"@)
}

/// Whether a stored file is a snapshot older than the retention window.
pub open spec fn is_expired_snapshot(f: StoredFile) -> bool {
    is_snapshot_file(f) && match f.age_secs {
        Some(a) => a > RECOVERY_RETENTION_SECS,
        None => false,
    }
}

/// Paths of the snapshots among `s`, in listing order.
pub open spec fn snapshot_paths(s: Seq<StoredFile>) -> Seq<Seq<char>>
    decreases s.len(),
{
    if s.len() == 0 {
        seq![]
    } else if is_snapshot_file(s.last()) {
        snapshot_paths(s.drop_last()).push(s.last().path@)
    } else {
        snapshot_paths(s.drop_last())
    }
}

/// Paths of the expired snapshots among `s`, in listing order.
pub open spec fn expired_snapshot_paths(s: Seq<StoredFile>) -> Seq<Seq<char>>
    decreases s.len(),
{
    if s.len() == 0 {
        seq![]
    } else if is_expired_snapshot(s.last()) {
        expired_snapshot_paths(s.drop_last()).push(s.last().path@)
    } else {
        expired_snapshot_paths(s.drop_last())
    }
}

/// Relies on dirs::document_dir: the user's documents directory as the
/// platform and the environment report it, if any.
#[verifier::external_body]
fn user_documents_dir() -> (r: Option<String>) {
    dirs::document_dir().map(|p| p.to_string_lossy().into_owned())
}

/// The documents directory below the user's documents directory `user_dir`,
/// or `./documents` when there is none.
pub fn documents_dir_in(user_dir: Option<String>) -> (r: String)
    ensures
        r@ == documents_dir_for(user_dir.deep_view()),
{
    match user_dir {
        Some(d) => join_path(d.as_str(), "Trosyn"),
        None => String::from_str("./documents"),
    }
}

/// The application's documents directory.
pub fn get_documents_dir() -> (r: String)
    ensures
        exists|user_dir: Option<Seq<char>>| r@ == documents_dir_for(user_dir),
{
    let user_dir = user_documents_dir();
    documents_dir_in(user_dir)
}

/// The recovery directory inside the documents directory `documents_dir`.
pub fn recovery_dir_in(documents_dir: &str) -> (r: String)
    ensures
        r@ == recovery_dir_for(documents_dir@),
{
    join_path(documents_dir, ".recovery")
}

/// The directory that holds the crash-recovery snapshots.
pub fn get_recovery_dir() -> (r: String)
    ensures
        exists|user_dir: Option<Seq<char>>| r@ == recovery_dir_for(documents_dir_for(user_dir)),
{
    let d = get_documents_dir();
    recovery_dir_in(d.as_str())
}

/// Name of the snapshot file of the document with identifier `doc_id`:
/// `recovery_<id>.json`.
pub fn recovery_file_name(doc_id: &str) -> (r: String)
    ensures
        r@ == recovery_file_name_for(doc_id@),
{
    String::from_str("recovery_").concat(doc_id).concat(".json")
}

/// Path of the snapshot file of the document with identifier `doc_id` in the
/// recovery directory `recovery_dir`.
pub fn recovery_file_path(recovery_dir: &str, doc_id: &str) -> (r: String)
    ensures
        r@ == path_join(recovery_dir@, recovery_file_name_for(doc_id@)),
{
    let name = recovery_file_name(doc_id);
    join_path(recovery_dir, name.as_str())
}

/// Whether a stored file is a snapshot: a regular file with a `json` extension.
pub fn is_snapshot(f: &StoredFile) -> (r: bool)
    ensures
        r == is_snapshot_file(*f),
{
    if !f.is_file {
        return false;
    }
    let json = String::from_str("json");
    match extension_of(f.path.as_str()) {
        Some(e) => e == json,
        None => false,
    }
}

/// Paths of the snapshots among the entries of the recovery directory, in
/// listing order.
pub fn recovery_files(entries: &Vec<StoredFile>) -> (r: Vec<String>)
    ensures
        r@.map_values(|p: String| p@) == snapshot_paths(entries@),
{
    let mut out: Vec<String> = Vec::new();
    let mut i: usize = 0;
    while i < entries.len()
        invariant
            i <= entries@.len(),
            out@.map_values(|p: String| p@) == snapshot_paths(entries@.subrange(0, i as int)),
        decreases entries.len() - i,
    {
        let ghost prev = out@;
        assert(entries@.subrange(0, i + 1).drop_last() =~= entries@.subrange(0, i as int));
        if is_snapshot(&entries[i]) {
            out.push(entries[i].path.clone());
            assert(out@.map_values(|p: String| p@) =~= prev.map_values(|p: String| p@).push(
                entries@[i as int].path@,
            ));
        }
        i = i + 1;
    }
    assert(entries@.subrange(0, entries@.len() as int) =~= entries@);
    out
}

/// Paths of the snapshots that have outlived the retention window, in
/// listing order: those a startup purge deletes.
pub fn expired_recovery_files(entries: &Vec<StoredFile>) -> (r: Vec<String>)
    ensures
        r@.map_values(|p: String| p@) == expired_snapshot_paths(entries@),
{
    let mut out: Vec<String> = Vec::new();
    let mut i: usize = 0;
    while i < entries.len()
        invariant
            i <= entries@.len(),
            out@.map_values(|p: String| p@) == expired_snapshot_paths(
                entries@.subrange(0, i as int),
            ),
        decreases entries.len() - i,
    {
        let ghost prev = out@;
        assert(entries@.subrange(0, i + 1).drop_last() =~= entries@.subrange(0, i as int));
        let f = &entries[i];
        let expired = match f.age_secs {
            Some(a) => a > RECOVERY_RETENTION_SECS && is_snapshot(f),
            None => false,
        };
        if expired {
            out.push(f.path.clone());
            assert(out@.map_values(|p: String| p@) =~= prev.map_values(|p: String| p@).push(
                entries@[i as int].path@,
            ));
        }
        i = i + 1;
    }
    assert(entries@.subrange(0, entries@.len() as int) =~= entries@);
    out
}

} // verus!
