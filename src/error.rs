//! Error types of the library.
use vstd::prelude::*;
use vstd::string::*;

verus! {

/// Failures of the document operations.
#[derive(Debug)]
pub enum DocumentError {
    /// Reading or writing durable storage failed, with the underlying message.
    Io(String),
    /// Text could not be read or written as JSON, with the underlying message.
    Serde(String),
    /// The user declined an interactive step.
    OperationCancelled,
    /// The content is not in the expected document format.
    InvalidFormat,
    /// No document, version or snapshot has the given identity.
    NotFound,
    /// Access to durable storage was refused.
    PermissionDenied,
    /// Any other fault, with its context.
    Unknown(String),
}

/// Errors reported to the caller of a command.
#[derive(Debug)]
pub enum Error {
    Io(String),
    Tauri(String),
    Serde(String),
    Database(String),
    FileWatcher(String),
    NotFound(String),
    InvalidPath(String),
    UnsupportedFormat(String),
    OperationCancelled(String),
}

impl DocumentError {
    /// The text that describes this failure.
    pub open spec fn message_spec(&self) -> Seq<char> {
        match self {
            DocumentError::Io(m) => "I/O error: "@ + m@,
            DocumentError::Serde(m) => "Serialization error: "@ + m@,
            DocumentError::OperationCancelled => "Operation cancelled by user"@,
            DocumentError::InvalidFormat => "Invalid document format"@,
            DocumentError::NotFound => "Document not found"@,
            DocumentError::PermissionDenied => "Permission denied"@,
            DocumentError::Unknown(m) => "Unknown error: "@ + m@,
        }
    }

    /// The text that describes this failure.
    pub fn message(&self) -> (r: String)
        ensures
            r@ == self.message_spec(),
    {
        match self {
            DocumentError::Io(m) => String::from_str("I/O error: ").concat(m.as_str()),
            DocumentError::Serde(m) => String::from_str("Serialization error: ").concat(m.as_str()),
            DocumentError::OperationCancelled => String::from_str("Operation cancelled by user"),
            DocumentError::InvalidFormat => String::from_str("Invalid document format"),
            DocumentError::NotFound => String::from_str("Document not found"),
            DocumentError::PermissionDenied => String::from_str("Permission denied"),
            DocumentError::Unknown(m) => String::from_str("Unknown error: ").concat(m.as_str()),
        }
    }
}

impl Error {
    /// The text that describes this error.
    pub open spec fn message_spec(&self) -> Seq<char> {
        match self {
            Error::Io(m) => "I/O Error: "@ + m@,
            Error::Tauri(m) => "Tauri Error: "@ + m@,
            Error::Serde(m) => "Serde Error: "@ + m@,
            Error::Database(m) => "Database Error: "@ + m@,
            Error::FileWatcher(m) => "File Watcher Error: "@ + m@,
            Error::NotFound(m) => "Not Found: "@ + m@,
            Error::InvalidPath(m) => "Invalid Path: "@ + m@,
            Error::UnsupportedFormat(m) => "Unsupported format: "@ + m@,
            Error::OperationCancelled(m) => "Operation cancelled: "@ + m@,
        }
    }

    /// The text that describes this error.
    pub fn message(&self) -> (r: String)
        ensures
            r@ == self.message_spec(),
    {
        let (prefix, m) = match self {
            Error::Io(m) => ("I/O Error: ", m),
            Error::Tauri(m) => ("Tauri Error: ", m),
            Error::Serde(m) => ("Serde Error: ", m),
            Error::Database(m) => ("Database Error: ", m),
            Error::FileWatcher(m) => ("File Watcher Error: ", m),
            Error::NotFound(m) => ("Not Found: ", m),
            Error::InvalidPath(m) => ("Invalid Path: ", m),
            Error::UnsupportedFormat(m) => ("Unsupported format: ", m),
            Error::OperationCancelled(m) => ("Operation cancelled: ", m),
        };
        String::from_str(prefix).concat(m.as_str())
    }
}

/// `e` is what a command reports for the failure `d`.
pub open spec fn reported_as(d: DocumentError, e: Error) -> bool {
    match d {
        DocumentError::Io(m) => e matches Error::Io(x) && x@ == m@,
        DocumentError::Serde(m) => e matches Error::Serde(x) && x@ == m@,
        DocumentError::OperationCancelled => e matches Error::OperationCancelled(x) && x@
            == "Operation cancelled by user"@,
        DocumentError::InvalidFormat => e matches Error::UnsupportedFormat(x) && x@
            == "Invalid document format"@,
        DocumentError::NotFound => e matches Error::NotFound(x) && x@ == "Document not found"@,
        DocumentError::PermissionDenied => e matches Error::Io(x) && x@ == "Permission denied"@,
        DocumentError::Unknown(m) => e matches Error::Io(x) && x@ == "Unknown error: "@ + m@,
    }
}

impl From<DocumentError> for Error {
    fn from(error: DocumentError) -> (r: Error)
        ensures
            reported_as(error, r),
    {
        match error {
            DocumentError::Io(m) => Error::Io(m),
            DocumentError::Serde(m) => Error::Serde(m),
            DocumentError::OperationCancelled => Error::OperationCancelled(
                String::from_str("Operation cancelled by user"),
            ),
            DocumentError::InvalidFormat => Error::UnsupportedFormat(
                String::from_str("Invalid document format"),
            ),
            DocumentError::NotFound => Error::NotFound(String::from_str("Document not found")),
            DocumentError::PermissionDenied => Error::Io(String::from_str("Permission denied")),
            DocumentError::Unknown(m) => Error::Io(
                String::from_str("Unknown error: ").concat(m.as_str()),
            ),
        }
    }
}

// The messages are strings, which a spec function cannot build, so the
// conversion is described by `reported_as` on `from` itself.
impl vstd::std_specs::convert::FromSpecImpl<DocumentError> for Error {
    open spec fn obeys_from_spec() -> bool {
        false
    }

    open spec fn from_spec(v: DocumentError) -> Error {
        arbitrary()
    }
}

} // verus!
