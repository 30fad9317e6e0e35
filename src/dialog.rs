//! Options that a caller passes to a file-open dialog.
use vstd::prelude::*;

verus! {

/// A named group of file extensions offered by a file dialog.
#[derive(Debug)]
pub struct FileFilter {
    pub name: String,
    pub extensions: Vec<String>,
}

/// What a file-open dialog should offer.
#[derive(Debug)]
pub struct OpenDialogOptions {
    /// Whether several files may be picked; one when absent.
    pub multiple: Option<bool>,
    pub filters: Option<Vec<FileFilter>>,
}

impl OpenDialogOptions {
    /// Whether the dialog lets several files be picked.
    pub fn allows_multiple(&self) -> (r: bool)
        ensures
            r == (self.multiple == Some(true)),
    {
        match self.multiple {
            Some(m) => m,
            None => false,
        }
    }
}

} // verus!
