//! Persistence core of a document editor: a bounded, deduplicating version
//! history per document, crash-recovery snapshot bookkeeping, the auto-save
//! gate, the decisions of the save, load and recovery commands, document
//! export renderers and a small key-value store.
pub mod clock;
pub mod content;
pub mod dialog;
pub mod document;
pub mod error;
pub mod export;
pub mod paths;
pub mod persist;
pub mod recovery;
pub mod storage;

pub use clock::{auto_save_due, elapsed_whole_secs, UtcInstant, AUTO_SAVE_INTERVAL};
pub use content::Content;
pub use dialog::{FileFilter, OpenDialogOptions};
pub use document::{Document, DocumentVersion, MAX_VERSIONS};
pub use error::{DocumentError, Error};
pub use export::{export_format, export_text, Block, ExportFormat};
pub use persist::{prepare_save, recover_from_snapshot, title_for_path};
pub use recovery::{
    expired_recovery_files, get_documents_dir, get_recovery_dir, recovery_file_name,
    recovery_file_path, recovery_files, StoredFile, RECOVERY_RETENTION_SECS,
};
pub use storage::SecureStorage;
