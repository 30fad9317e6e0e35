use std::collections::HashSet;

use trosyn::{Content, Document, DocumentVersion, UtcInstant, MAX_VERSIONS};

fn body(text: &str) -> Content {
    let quoted = serde_json::to_string(text).unwrap();
    Content::parse(&format!("{{\"content\":{}}}", quoted)).unwrap()
}

fn now_instant() -> UtcInstant {
    let now = chrono::Utc::now();
    UtcInstant { secs: now.timestamp(), nanos: now.timestamp_subsec_nanos() }
}

fn create_simple_document() -> Document {
    Document::new("Test Document".to_string(), body(""))
}

fn create_document_with_content() -> Document {
    Document::new("Document with Content".to_string(), body("Initial content"))
}

fn create_document_with_versions() -> Document {
    let mut doc = Document::new("Document with Versions".to_string(), body(""));
    doc.versions.retain(|v| v.content == body(""));
    doc.add_version(body("v1"), false);
    doc.add_version(body("v2"), false);
    assert_eq!(doc.versions.len(), 3, "Document should have 3 versions (1 empty + 2 content)");
    assert_eq!(doc.versions[0].content, body(""), "First version should be empty");
    doc
}

#[test]
fn creates_document_with_title() {
    let doc = create_simple_document();
    assert_eq!(doc.title, "Test Document");
}

#[test]
fn creates_document_with_unique_id() {
    let doc1 = create_simple_document();
    let doc2 = create_simple_document();
    assert_ne!(doc1.id, doc2.id);
}

#[test]
fn creates_document_with_initial_version() {
    let doc = create_simple_document();
    assert_eq!(doc.versions.len(), 1);
}

#[test]
fn creates_document_with_timestamps() {
    let doc = create_simple_document();
    assert!(doc.created_at <= now_instant());
    assert!(doc.updated_at <= now_instant());
}

#[test]
fn updates_content_successfully() {
    let mut doc = create_simple_document();
    let new_content = body("New content");
    doc.add_version(new_content.clone(), false);
    assert_eq!(doc.content, new_content);
}

#[test]
fn increments_version_on_update() {
    let mut doc = create_simple_document();
    let initial_versions = 1;
    doc.add_version(body("Updated content"), false);
    assert_eq!(doc.versions.len() as u32, initial_versions + 1);
}

#[test]
fn updates_timestamp_on_content_change() {
    let mut doc = create_simple_document();
    let time_before = doc.updated_at;
    let start = std::time::Instant::now();
    while start.elapsed() < std::time::Duration::from_millis(1) {}
    doc.add_version(body("Updated content"), false);
    assert!(doc.updated_at > time_before);
}

#[test]
fn handles_large_content() {
    let mut doc = create_simple_document();
    let large_content = "x".repeat(1_000_000);
    doc.add_version(body(&large_content), false);
    assert_eq!(doc.content, body(&large_content));
}

#[test]
fn tracks_version_history() {
    let doc = create_document_with_versions();
    assert_eq!(doc.versions.len(), 3);
}

#[test]
fn retrieves_specific_version() {
    let doc = create_document_with_versions();
    let version_id = &doc.versions[1].id;
    let version = doc.get_version(version_id);
    assert!(version.is_some());
    assert_eq!(version.unwrap().content, body("v1"));
}

#[test]
fn returns_none_for_nonexistent_version() {
    let doc = create_document_with_versions();
    let version = doc.get_version("nonexistent-id");
    assert!(version.is_none());
}

#[test]
fn maintains_version_order() {
    let doc = create_document_with_versions();
    for (i, version) in doc.versions.iter().enumerate() {
        if i == 0 {
            assert_eq!(version.content, body(""));
        } else {
            assert_eq!(version.content, body(&format!("v{}", i)));
        }
    }
}

#[test]
fn handles_empty_title() {
    let doc = Document::new("".to_string(), body(""));
    assert!(doc.title.is_empty());
}

#[test]
fn handles_unicode_title() {
    let title = "文档标题".to_string();
    let doc = Document::new(title.clone(), body(""));
    assert_eq!(doc.title, title);
}

#[test]
fn handles_empty_content_update() {
    let mut doc = create_simple_document();
    doc.add_version(body(""), false);
    assert_eq!(doc.content, body(""));
}

#[test]
fn handles_multiple_rapid_updates() {
    let mut doc = create_simple_document();
    for i in 0..10 {
        doc.add_version(body(&format!("Content {}", i)), false);
    }
    assert_eq!(doc.versions.len(), 11);
}

#[test]
fn complete_document_lifecycle() {
    let mut doc = Document::new("My Document".to_string(), body(""));
    assert_eq!(doc.versions.len(), 1);

    let initial_content = body("Initial content");
    doc.add_version(initial_content.clone(), false);
    assert_eq!(doc.versions.len(), 2);

    let updated_content = body("Updated content");
    let final_content = body("Final content");
    doc.add_version(updated_content, false);
    doc.add_version(final_content.clone(), false);

    assert_eq!(doc.versions.len(), 4);
    assert_eq!(doc.versions[0].content, body(""));
    assert_eq!(doc.versions[1].content, initial_content);
    assert_eq!(doc.versions[3].content, final_content);
}

#[test]
fn batch_document_operations() {
    let mut documents = Vec::new();
    for i in 0..5 {
        let title = format!("Document {}", i);
        let content = body(&format!("Content for document {}", i));
        documents.push(Document::new(title, content));
    }
    assert_eq!(documents.len(), 5);

    let ids: HashSet<_> = documents.iter().map(|d| &d.id).collect();
    assert_eq!(ids.len(), 5);

    for (i, doc) in documents.iter().enumerate() {
        assert_eq!(doc.title, format!("Document {}", i));
        assert_eq!(doc.content, body(&format!("Content for document {}", i)));
    }
}

#[test]
fn handles_many_versions_efficiently() {
    let mut doc = Document::new("Performance Test".to_string(), body(""));
    let start = std::time::Instant::now();
    for i in 0..100 {
        doc.add_version(body(&format!("Content {}", i)), false);
    }
    let duration = start.elapsed();
    assert!(duration.as_millis() < 10, "Adding versions took too long: {:?}", duration);
    assert_eq!(
        doc.versions.len(),
        MAX_VERSIONS + 1,
        "Should have exactly {} versions (1 empty + {} content versions)",
        MAX_VERSIONS + 1,
        MAX_VERSIONS
    );
    assert_eq!(doc.versions[0].content, body(""), "First version should be empty");
    assert_eq!(
        doc.versions.last().unwrap().content,
        body("Content 99"),
        "Last version should be the most recent one"
    );
    assert_eq!(doc.versions[1].content, body("Content 90"), "Oldest kept version should be Content 90");
}

// Behaviour of the version store beyond the carried-over cases.

#[test]
fn new_document_with_content_has_two_versions() {
    let doc = create_document_with_content();
    assert_eq!(doc.versions.len(), 2);
    assert_eq!(doc.content, body("Initial content"));
    assert_eq!(doc.versions[1].content, body("Initial content"));
    assert!(doc.last_save_time.is_some());
    assert!(!doc.is_dirty);
}

#[test]
fn auto_save_hit_keeps_content_and_length() {
    let mut doc = create_simple_document();
    assert_eq!(doc.versions.len(), 1);
    doc.add_version(body("v1"), false);
    assert_eq!(doc.versions.len(), 2);
    assert_eq!(doc.versions[1].content, body("v1"));
    doc.add_version(body("v2"), false);
    let before = doc.content.clone();
    let len = doc.versions.len();
    doc.add_version(body("v1"), true);
    assert_eq!(doc.versions.len(), len);
    assert!(doc.last_auto_save.is_some());
    assert_eq!(doc.content, before);
}

#[test]
fn duplicate_manual_save_touches_timestamp_only() {
    let t0 = UtcInstant { secs: 1_000, nanos: 0 };
    let t1 = UtcInstant { secs: 2_000, nanos: 5 };
    let t2 = UtcInstant { secs: 3_000, nanos: 0 };
    let mut doc = Document::new_at("T".to_string(), body(""), t0, "d".into(), "b".into(), "x".into());
    doc.add_version_at(body("a"), false, t1, "va".into());
    doc.add_version_at(body("b"), true, t1, "vb".into());
    doc.is_dirty = true;
    let r = doc.add_version_at(body("a"), false, t2, "unused".into());
    assert_eq!(r.id, "va");
    assert_eq!(r.timestamp, 3_000);
    assert_eq!(r.created_at, t1);
    assert_eq!(doc.versions.len(), 3);
    assert_eq!(doc.content, body("a"));
    assert!(!doc.is_dirty);
    assert_eq!(doc.last_save_time, Some(3_000));
    assert_eq!(doc.updated_at, t2);
}

#[test]
fn new_version_records_size_and_stamps() {
    let t = UtcInstant { secs: 42, nanos: 7 };
    let v = DocumentVersion::new_at(body("héllo"), true, t, "id1".into());
    assert_eq!(v.size, "{\"content\":\"héllo\"}".len());
    assert_eq!(v.size, 20);
    assert_eq!(v.created_at, t);
    assert_eq!(v.timestamp, 42);
    assert!(v.is_auto_save);
    assert_eq!(DocumentVersion::new(body(""), false).id.len(), 36);
}

#[test]
fn auto_save_new_content_keeps_dirty_flag() {
    let t = UtcInstant { secs: 10, nanos: 0 };
    let mut doc = Document::new_at("T".to_string(), body(""), t, "d".into(), "b".into(), "x".into());
    doc.is_dirty = true;
    doc.add_version_at(body("auto"), true, t, "v".into());
    assert!(doc.is_dirty);
    assert_eq!(doc.content, body("auto"));
    assert_eq!(doc.last_auto_save, Some(t));
    assert_eq!(doc.last_save_time, None);
}

#[test]
fn baseline_survives_eviction() {
    let t = UtcInstant { secs: 10, nanos: 0 };
    let mut doc = Document::new_at("T".to_string(), body(""), t, "d".into(), "base".into(), "x".into());
    for i in 0..25 {
        doc.add_version_at(body(&format!("c{}", i)), i % 2 == 0, t, format!("v{}", i));
        assert!(doc.versions.len() <= MAX_VERSIONS + 1);
        assert_eq!(doc.versions[0].id, "base");
        assert_eq!(doc.versions[0].content, Content::empty());
    }
    assert_eq!(doc.versions[1].content, body("c15"));
}

#[test]
fn parse_normalises_and_rejects() {
    let a = Content::parse("{ \"b\": 1, \"a\": [true, null] }").unwrap();
    let b = Content::parse("{\"a\":[true,null],\"b\":1}").unwrap();
    assert_eq!(a, b);
    assert_eq!(a.as_str(), "{\"a\":[true,null],\"b\":1}");
    assert_eq!(Content::parse("{\"content\": \"\"}").unwrap(), Content::empty());
    assert!(Content::empty().is_empty_body());
    assert!(matches!(Content::parse("{not json"), Err(trosyn::DocumentError::Serde(_))));
}

#[test]
fn duplicate_auto_save_after_manual_save() {
    let mut doc = Document::new("S".to_string(), body(""));
    assert_eq!(doc.versions.len(), 1);
    doc.add_version(body("v1"), false);
    assert_eq!(doc.versions.len(), 2);
    assert_eq!(doc.versions[1].content, body("v1"));
    assert!(doc.last_auto_save.is_none());
    doc.add_version(body("v1"), true);
    assert_eq!(doc.versions.len(), 2);
    assert!(doc.last_auto_save.is_some());
    assert_eq!(doc.content, body("v1"));
}

#[test]
fn content_text_reads_back_to_itself() {
    let c = Content::parse("{\"blocks\": [{\"type\": \"paragraph\", \"data\": {\"text\": \"é\\n\"}}], \"time\": 1.5}").unwrap();
    assert_eq!(Content::parse(c.as_str()).unwrap(), c);
    assert_eq!(c.byte_len(), c.as_str().len());
}
