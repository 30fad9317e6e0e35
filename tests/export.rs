use trosyn::export::{decimal_string, format_from_lowercase, render_blocks};
use trosyn::{export_format, export_text, Block, Error, ExportFormat, OpenDialogOptions};

fn block(kind: &str, text: Option<&str>, level: Option<u64>, items: Option<Vec<&str>>) -> Block {
    Block {
        kind: kind.to_string(),
        text: text.map(|t| t.to_string()),
        level,
        items: items.map(|v| v.into_iter().map(|s| s.to_string()).collect()),
    }
}

fn sample() -> Vec<Block> {
    vec![
        block("header", Some("Title"), Some(2), None),
        block("paragraph", Some("Hello"), None, None),
        block("list", None, None, Some(vec!["a", "b"])),
        block("image", None, None, None),
    ]
}

#[test]
fn formats_are_named_in_any_case() {
    assert_eq!(export_format("HTML").unwrap(), ExportFormat::Html);
    assert_eq!(export_format("md").unwrap(), ExportFormat::Markdown);
    assert_eq!(export_format("Txt").unwrap(), ExportFormat::PlainText);
    assert!(matches!(export_format("pdf"), Err(Error::UnsupportedFormat(f)) if f == "pdf"));
    assert_eq!(format_from_lowercase("HTML"), None);
    assert_eq!(ExportFormat::Markdown.extension(), "md");
}

#[test]
fn renders_markdown() {
    let out = render_blocks(ExportFormat::Markdown, &sample());
    assert_eq!(out, "## Title\n\nHello\n\n- a\n- b\n\n<!-- image block -->\n\n");
}

#[test]
fn renders_plain_text() {
    let out = render_blocks(ExportFormat::PlainText, &sample());
    assert_eq!(out, "Title\n\nHello\n\n- a\n- b\n\n");
}

#[test]
fn renders_html() {
    let out = export_text(ExportFormat::Html, "ignored", &Some(sample()));
    assert!(out.starts_with("<!DOCTYPE html>\n"));
    assert!(out.contains("<body>    <h2>Title</h2>\n    <p>Hello</p>\n    <ul>\n        <li>a</li>\n        <li>b</li>\n    </ul>\n    <div><!-- image block --></div>\n"));
    assert!(out.ends_with("</html>\n                        "));
}

#[test]
fn falls_back_without_blocks() {
    assert_eq!(export_text(ExportFormat::Html, "raw", &None), "<html><body><pre>raw</pre></body></html>");
    assert_eq!(export_text(ExportFormat::Markdown, "raw", &None), "raw");
    assert_eq!(export_text(ExportFormat::PlainText, "raw", &None), "raw");
}

#[test]
fn incomplete_blocks_render_nothing() {
    let blocks = vec![block("header", Some("t"), None, None), block("paragraph", None, None, None)];
    assert_eq!(render_blocks(ExportFormat::Html, &blocks), "");
    assert_eq!(render_blocks(ExportFormat::Markdown, &blocks), "");
}

#[test]
fn writes_decimals() {
    assert_eq!(decimal_string(0), "0");
    assert_eq!(decimal_string(1203), "1203");
    assert_eq!(decimal_string(u64::MAX), u64::MAX.to_string());
}

#[test]
fn dialog_picks_one_file_by_default() {
    let opts = OpenDialogOptions { multiple: None, filters: None };
    assert!(!opts.allows_multiple());
    let opts = OpenDialogOptions { multiple: Some(true), filters: None };
    assert!(opts.allows_multiple());
}
