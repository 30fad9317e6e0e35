use trosyn::{DocumentError, Error};

#[test]
fn document_errors_map_to_command_errors() {
    assert!(matches!(Error::from(DocumentError::Io("disk".into())), Error::Io(m) if m == "disk"));
    assert!(matches!(Error::from(DocumentError::Serde("bad".into())), Error::Serde(m) if m == "bad"));
    assert!(matches!(
        Error::from(DocumentError::OperationCancelled),
        Error::OperationCancelled(m) if m == "Operation cancelled by user"
    ));
    assert!(matches!(
        Error::from(DocumentError::InvalidFormat),
        Error::UnsupportedFormat(m) if m == "Invalid document format"
    ));
    assert!(matches!(Error::from(DocumentError::NotFound), Error::NotFound(m) if m == "Document not found"));
    assert!(matches!(Error::from(DocumentError::PermissionDenied), Error::Io(m) if m == "Permission denied"));
    assert!(matches!(
        Error::from(DocumentError::Unknown("boom".into())),
        Error::Io(m) if m == "Unknown error: boom"
    ));
}

#[test]
fn messages_describe_errors() {
    assert_eq!(DocumentError::Io("x".into()).message(), "I/O error: x");
    assert_eq!(DocumentError::Serde("y".into()).message(), "Serialization error: y");
    assert_eq!(DocumentError::NotFound.message(), "Document not found");
    assert_eq!(Error::NotFound("z".into()).message(), "Not Found: z");
    assert_eq!(Error::OperationCancelled("c".into()).message(), "Operation cancelled: c");
}

