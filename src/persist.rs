//! The decisions of the save, load and recovery operations; reading and
//! writing the files is left to the caller.
use vstd::prelude::*;
use vstd::string::*;

use crate::content::{empty_body, Content};
use crate::document::{history, history_after_add, is_created, version_added, Document};
use crate::error::DocumentError;
use crate::paths::{file_stem_of, path_file_stem};

verus! {

/// Title of a document first saved to `path`: the file stem, or `Untitled`.
pub open spec fn title_for(path: Seq<char>) -> Seq<char> {
    match path_file_stem(path) {
        Some(s) => s,
        None => "Untitled"@,
    }
}

/// The contents of a new document's history when it is created with `c`.
pub open spec fn new_history(c: Seq<char>) -> Seq<Seq<char>> {
    if c == empty_body() {
        seq![empty_body()]
    } else {
        seq![empty_body(), c]
    }
}

/// Title of a document first saved to `path`: the file stem, or `Untitled`.
pub fn title_for_path(path: &str) -> (r: String)
    ensures
        r@ == title_for(path@),
{
    match file_stem_of(path) {
        Some(s) => s,
        None => String::from_str("Untitled"),
    }
}

/// The document to write when `content` is saved.
///
/// With a path, the document already stored there (`existing`) is updated:
/// it is kept as it is when `content` is already current, else `content` is
/// added as a manual save; when nothing is stored there yet, a new document
/// titled after the file is created with `content`. Without a path, a new
/// `Untitled` document is created and `content` is added to it as a manual
/// save. The result's primary location is `file_path`.
pub fn prepare_save(content: Content, file_path: Option<String>, existing: Option<Document>) -> (r:
    Document)
    ensures
        r.content@ == content@,
        r.file_path == file_path,
        match (file_path, existing) {
            (Some(p), Some(d)) => {
                &&& d.content@ == content@ ==> r == d.with_file_path(Some(p))
                &&& d.content@ != content@ ==> version_added(
                    d,
                    r.with_file_path(d.file_path),
                    content,
                    false,
                )
                &&& d.content@ != content@ ==> history(r.versions@) == history_after_add(
                    history(d.versions@),
                    content@,
                ) && !r.is_dirty
                &&& d.well_formed() ==> r.well_formed()
            },
            (Some(p), None) => {
                &&& is_created(r.with_file_path(None), title_for(p@), content)
                &&& history(r.versions@) == new_history(content@)
                &&& !r.is_dirty
                &&& r.well_formed()
            },
            (None, _) => {
                &&& exists|n: Document|
                    #[trigger] is_created(n, "Untitled"@, content) && version_added(
                        n,
                        r,
                        content,
                        false,
                    )
                &&& history(r.versions@) == history_after_add(new_history(content@), content@)
                &&& !r.is_dirty
                &&& r.well_formed()
            },
        },
{
    match file_path {
        Some(path) => {
            let mut doc = match existing {
                Some(d) => d,
                None => Document::new(title_for_path(path.as_str()), content.clone()),
            };
            if doc.content != content {
                doc.add_version(content, false);
            }
            doc.file_path = Some(path);
            doc
        },
        None => {
            let doc0 = Document::new(String::from_str("Untitled"), content.clone());
            let ghost n = doc0;
            let mut doc = doc0;
            doc.add_version(content, false);
            assert(is_created(n, "Untitled"@, content) && version_added(n, doc, content, false));
            doc
        },
    }
}

/// The document restored from a crash-recovery snapshot, if one was found;
/// it comes back marked dirty. Without a snapshot, recovery fails with
/// `NotFound`.
pub fn recover_from_snapshot(snapshot: Option<Document>) -> (r: Result<Document, DocumentError>)
    ensures
        match snapshot {
            Some(d) => r matches Ok(x) && x == d.with_dirty(true),
            None => r matches Err(DocumentError::NotFound),
        },
{
    match snapshot {
        Some(mut d) => {
            d.mark_recovered();
            Ok(d)
        },
        None => Err(DocumentError::NotFound),
    }
}

} // verus!
