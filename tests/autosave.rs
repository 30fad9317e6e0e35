use trosyn::{auto_save_due, Content, Document, UtcInstant, AUTO_SAVE_INTERVAL};

fn at(secs: i64, nanos: u32) -> UtcInstant {
    UtcInstant { secs, nanos }
}

#[test]
fn gate_opens_without_previous_auto_save() {
    assert!(auto_save_due(None, at(0, 0)));
}

#[test]
fn gate_needs_thirty_whole_seconds() {
    assert_eq!(AUTO_SAVE_INTERVAL, 30);
    assert!(!auto_save_due(Some(at(100, 0)), at(129, 999_999_999)));
    assert!(auto_save_due(Some(at(100, 0)), at(130, 0)));
    assert!(auto_save_due(Some(at(100, 500)), at(200, 0)));
    assert!(!auto_save_due(Some(at(100, 500)), at(130, 499)));
    assert!(auto_save_due(Some(at(100, 500)), at(130, 500)));
    assert!(!auto_save_due(Some(at(200, 0)), at(100, 0)));
}

#[test]
fn auto_save_follows_the_interval_gate() {
    let t0 = at(1_000, 0);
    let mut doc = Document::new_at("A".to_string(), Content::empty(), t0, "d".into(), "b".into(), "v".into());
    assert_eq!(doc.file_path, None);
    assert!(doc.auto_save_at(t0, "x".into()));
    assert!(doc.is_dirty);
    assert_eq!(doc.last_auto_save, Some(t0));
    assert_eq!(doc.versions.len(), 2);
    assert!(doc.versions[1].is_auto_save);
    assert_eq!(doc.versions[1].id, "x");

    assert!(!doc.auto_save_at(at(1_010, 0), "y".into()));
    assert_eq!(doc.last_auto_save, Some(t0));
    assert_eq!(doc.versions[1].timestamp, 1_000);
    assert!(doc.auto_save_at(at(1_030, 0), "y".into()));
    assert_eq!(doc.versions.len(), 2);
    assert_eq!(doc.versions[1].timestamp, 1_030);
    assert_eq!(doc.last_auto_save, Some(at(1_030, 0)));
}

#[test]
fn fresh_document_is_auto_saved() {
    let mut doc = Document::new("Auto-saved Document".to_string(), Content::parse("{\"content\":\"draft\"}").unwrap());
    assert_eq!(doc.versions.len(), 2);
    assert!(doc.auto_save());
    assert!(doc.is_dirty);
    assert!(doc.last_auto_save.is_some());
    assert_eq!(doc.versions.len(), 2);
    assert!(!doc.auto_save());
}
