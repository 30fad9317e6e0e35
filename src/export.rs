//! Rendering an editor's block list as HTML, Markdown or plain text.
use vstd::prelude::*;
use vstd::string::*;

use crate::error::Error;

verus! {

/// What std's `str::to_lowercase` makes of `s`.
pub uninterp spec fn lower_of(s: Seq<char>) -> Seq<char>;

/// Relies on std's str::to_lowercase: the lowercase form of `s`, which
/// depends on its characters alone.
#[verifier::external_body]
fn lowercase(s: &str) -> (r: String)
    ensures
        r@ == lower_of(s@),
{
    s.to_lowercase()
}

/// The formats a document can be exported to.
#[derive(Debug, Clone, Copy, PartialEq, Eq, Structural)]
pub enum ExportFormat {
    Html,
    Markdown,
    PlainText,
}

/// One block of an editor document, as far as the renderers read it.
#[derive(Debug)]
pub struct Block {
    /// The block's type, such as `header`, `paragraph` or `list`.
    pub kind: String,
    /// The block's `text`, when it is a string.
    pub text: Option<String>,
    /// The block's `level`, when it is an unsigned integer.
    pub level: Option<u64>,
    /// The string members of the block's `items`, when that is an array.
    pub items: Option<Vec<String>>,
}

/// The character of decimal digit `d`.
pub open spec fn digit_char(d: nat) -> char {
    if d == 0 {
        '0'
    } else if d == 1 {
        '1'
    } else if d == 2 {
        '2'
    } else if d == 3 {
        '3'
    } else if d == 4 {
        '4'
    } else if d == 5 {
        '5'
    } else if d == 6 {
        '6'
    } else if d == 7 {
        '7'
    } else if d == 8 {
        '8'
    } else {
        '9'
    }
}

/// `n` written in decimal.
pub open spec fn decimal(n: nat) -> Seq<char>
    decreases n,
{
    if n < 10 {
        seq![digit_char(n)]
    } else {
        decimal(n / 10) + seq![digit_char(n % 10)]
    }
}

/// A run of `n` `#` characters.
pub open spec fn hashes(n: nat) -> Seq<char> {
    Seq::new(n, |i: int| '#')
}

/// The opening of an exported HTML page, up to and including `<body>`.
pub open spec fn html_head() -> Seq<char> {
    "<!DOCTYPE html>\n                            <html>\n                            <head>\n                                <title>Document</title>\n                                <meta charset=\"utf-8\">\n                            </head>\n                            <body>"@
}

/// The closing of an exported HTML page.
pub open spec fn html_tail() -> Seq<char> {
    "\n                            </body>\n                            </html>\n                        "@
}

/// List items as HTML `li` elements.
pub open spec fn html_items(items: Seq<String>) -> Seq<char>
    decreases items.len(),
{
    if items.len() == 0 {
        seq![]
    } else {
        html_items(items.drop_last()) + "        <li>"@ + items.last()@ + "</li>\n"@
    }
}

/// List items as Markdown bullets.
pub open spec fn bullet_items(items: Seq<String>) -> Seq<char>
    decreases items.len(),
{
    if items.len() == 0 {
        seq![]
    } else {
        bullet_items(items.drop_last()) + "- "@ + items.last()@ + "\n"@
    }
}

/// One block as HTML.
pub open spec fn html_block(b: Block) -> Seq<char> {
    if b.kind@ == "header"@ {
        match (b.text, b.level) {
            (Some(t), Some(l)) => "    <h"@ + decimal(l as nat) + ">"@ + t@ + "</h"@ + decimal(
                l as nat,
            ) + ">\n"@,
            _ => seq![],
        }
    } else if b.kind@ == "paragraph"@ {
        match b.text {
            Some(t) => "    <p>"@ + t@ + "</p>\n"@,
            None => seq![],
        }
    } else if b.kind@ == "list"@ {
        match b.items {
            Some(items) => "    <ul>\n"@ + html_items(items@) + "    </ul>\n"@,
            None => seq![],
        }
    } else {
        "    <div><!-- "@ + b.kind@ + " block --></div>\n"@
    }
}

/// One block as Markdown.
pub open spec fn markdown_block(b: Block) -> Seq<char> {
    if b.kind@ == "header"@ {
        match (b.text, b.level) {
            (Some(t), Some(l)) => hashes(l as nat) + " "@ + t@ + "\n"@ + "\n"@,
            _ => seq![],
        }
    } else if b.kind@ == "paragraph"@ {
        match b.text {
            Some(t) => t@ + "\n"@ + "\n"@,
            None => seq![],
        }
    } else if b.kind@ == "list"@ {
        match b.items {
            Some(items) => bullet_items(items@) + "\n"@,
            None => seq![],
        }
    } else {
        "<!-- "@ + b.kind@ + " block -->\n"@ + "\n"@
    }
}

/// One block as plain text: the text of headers and paragraphs, list items
/// as bullets, nothing for other blocks.
pub open spec fn plain_block(b: Block) -> Seq<char> {
    if b.kind@ == "header"@ || b.kind@ == "paragraph"@ {
        match b.text {
            Some(t) => t@ + "\n"@ + "\n"@,
            None => seq![],
        }
    } else if b.kind@ == "list"@ {
        match b.items {
            Some(items) => bullet_items(items@) + "\n"@,
            None => seq![],
        }
    } else {
        seq![]
    }
}

/// One block in `format`.
pub open spec fn block_in(format: ExportFormat, b: Block) -> Seq<char> {
    match format {
        ExportFormat::Html => html_block(b),
        ExportFormat::Markdown => markdown_block(b),
        ExportFormat::PlainText => plain_block(b),
    }
}

/// The blocks in `format`, one after another.
pub open spec fn blocks_in(format: ExportFormat, bs: Seq<Block>) -> Seq<char>
    decreases bs.len(),
{
    if bs.len() == 0 {
        seq![]
    } else {
        blocks_in(format, bs.drop_last()) + block_in(format, bs.last())
    }
}

/// The exported text of a document whose content is `content`, with
/// `blocks` its block list when the content is a JSON object with one.
/// Without blocks, HTML wraps the content in a `pre` element and the other
/// formats take it as it is.
pub open spec fn exported(format: ExportFormat, content: Seq<char>, blocks: Option<Seq<Block>>) -> Seq<
    char,
> {
    match blocks {
        Some(bs) => match format {
            ExportFormat::Html => html_head() + blocks_in(format, bs) + html_tail(),
            _ => blocks_in(format, bs),
        },
        None => match format {
            ExportFormat::Html => "<html><body><pre>"@ + content + "</pre></body></html>"@,
            _ => content,
        },
    }
}

/// The format named by an already lowercased name.
pub open spec fn format_named(lower: Seq<char>) -> Option<ExportFormat> {
    if lower == "html"@ {
        Some(ExportFormat::Html)
    } else if lower == "md"@ {
        Some(ExportFormat::Markdown)
    } else if lower == "txt"@ {
        Some(ExportFormat::PlainText)
    } else {
        None
    }
}

fn digit_str(d: u64) -> (r: &'static str)
    requires
        d < 10,
    ensures
        r@ == seq![digit_char(d as nat)],
{
    proof {
        reveal_strlit("0");
        reveal_strlit("1");
        reveal_strlit("2");
        reveal_strlit("3");
        reveal_strlit("4");
        reveal_strlit("5");
        reveal_strlit("6");
        reveal_strlit("7");
        reveal_strlit("8");
        reveal_strlit("9");
    }
    if d == 0 {
        "0"
    } else if d == 1 {
        "1"
    } else if d == 2 {
        "2"
    } else if d == 3 {
        "3"
    } else if d == 4 {
        "4"
    } else if d == 5 {
        "5"
    } else if d == 6 {
        "6"
    } else if d == 7 {
        "7"
    } else if d == 8 {
        "8"
    } else {
        "9"
    }
}

/// `n` written in decimal.
pub fn decimal_string(n: u64) -> (r: String)
    ensures
        r@ == decimal(n as nat),
    decreases n,
{
    if n < 10 {
        String::from_str(digit_str(n))
    } else {
        let high = decimal_string(n / 10);
        high.concat(digit_str(n % 10))
    }
}

fn hash_run(n: u64) -> (r: String)
    ensures
        r@ == hashes(n as nat),
{
    let mut out = String::new();
    let mut i: u64 = 0;
    while i < n
        invariant
            i <= n,
            out@ == hashes(i as nat),
        decreases n - i,
    {
        let ghost prev = out@;
        out.append("#");
        proof {
            reveal_strlit("#");
        }
        assert(out@ =~= hashes((i + 1) as nat));
        i = i + 1;
    }
    out
}

fn html_items_text(items: &Vec<String>) -> (r: String)
    ensures
        r@ == html_items(items@),
{
    let mut out = String::new();
    let mut i: usize = 0;
    while i < items.len()
        invariant
            i <= items@.len(),
            out@ == html_items(items@.subrange(0, i as int)),
        decreases items.len() - i,
    {
        assert(items@.subrange(0, i + 1).drop_last() =~= items@.subrange(0, i as int));
        out.append("        <li>");
        out.append(items[i].as_str());
        out.append("</li>\n");
        i = i + 1;
    }
    assert(items@.subrange(0, items@.len() as int) =~= items@);
    out
}

fn bullet_items_text(items: &Vec<String>) -> (r: String)
    ensures
        r@ == bullet_items(items@),
{
    let mut out = String::new();
    let mut i: usize = 0;
    while i < items.len()
        invariant
            i <= items@.len(),
            out@ == bullet_items(items@.subrange(0, i as int)),
        decreases items.len() - i,
    {
        assert(items@.subrange(0, i + 1).drop_last() =~= items@.subrange(0, i as int));
        out.append("- ");
        out.append(items[i].as_str());
        out.append("\n");
        i = i + 1;
    }
    assert(items@.subrange(0, items@.len() as int) =~= items@);
    out
}

fn html_block_text(b: &Block) -> (r: String)
    ensures
        r@ == html_block(*b),
{
    if b.kind == String::from_str("header") {
        match (&b.text, b.level) {
            (Some(t), Some(l)) => {
                let d = decimal_string(l);
                String::from_str("    <h").concat(d.as_str()).concat(">").concat(t.as_str()).concat(
                    "</h",
                ).concat(d.as_str()).concat(">\n")
            },
            _ => String::new(),
        }
    } else if b.kind == String::from_str("paragraph") {
        match &b.text {
            Some(t) => String::from_str("    <p>").concat(t.as_str()).concat("</p>\n"),
            None => String::new(),
        }
    } else if b.kind == String::from_str("list") {
        match &b.items {
            Some(items) => {
                let li = html_items_text(items);
                String::from_str("    <ul>\n").concat(li.as_str()).concat("    </ul>\n")
            },
            None => String::new(),
        }
    } else {
        String::from_str("    <div><!-- ").concat(b.kind.as_str()).concat(" block --></div>\n")
    }
}

fn markdown_block_text(b: &Block) -> (r: String)
    ensures
        r@ == markdown_block(*b),
{
    if b.kind == String::from_str("header") {
        match (&b.text, b.level) {
            (Some(t), Some(l)) => hash_run(l).concat(" ").concat(t.as_str()).concat("\n").concat(
                "\n",
            ),
            _ => String::new(),
        }
    } else if b.kind == String::from_str("paragraph") {
        match &b.text {
            Some(t) => String::from_str(t.as_str()).concat("\n").concat("\n"),
            None => String::new(),
        }
    } else if b.kind == String::from_str("list") {
        match &b.items {
            Some(items) => bullet_items_text(items).concat("\n"),
            None => String::new(),
        }
    } else {
        String::from_str("<!-- ").concat(b.kind.as_str()).concat(" block -->\n").concat("\n")
    }
}

fn plain_block_text(b: &Block) -> (r: String)
    ensures
        r@ == plain_block(*b),
{
    if b.kind == String::from_str("header") || b.kind == String::from_str("paragraph") {
        match &b.text {
            Some(t) => String::from_str(t.as_str()).concat("\n").concat("\n"),
            None => String::new(),
        }
    } else if b.kind == String::from_str("list") {
        match &b.items {
            Some(items) => bullet_items_text(items).concat("\n"),
            None => String::new(),
        }
    } else {
        String::new()
    }
}

/// The blocks in `format`, one after another.
pub fn render_blocks(format: ExportFormat, blocks: &Vec<Block>) -> (r: String)
    ensures
        r@ == blocks_in(format, blocks@),
{
    let mut out = String::new();
    let mut i: usize = 0;
    while i < blocks.len()
        invariant
            i <= blocks@.len(),
            out@ == blocks_in(format, blocks@.subrange(0, i as int)),
        decreases blocks.len() - i,
    {
        assert(blocks@.subrange(0, i + 1).drop_last() =~= blocks@.subrange(0, i as int));
        let piece = match format {
            ExportFormat::Html => html_block_text(&blocks[i]),
            ExportFormat::Markdown => markdown_block_text(&blocks[i]),
            ExportFormat::PlainText => plain_block_text(&blocks[i]),
        };
        out.append(piece.as_str());
        i = i + 1;
    }
    assert(blocks@.subrange(0, blocks@.len() as int) =~= blocks@);
    out
}

/// The exported text of a document whose content is `content`; `blocks` is
/// its block list when the content is a JSON object that has one.
pub fn export_text(format: ExportFormat, content: &str, blocks: &Option<Vec<Block>>) -> (r: String)
    ensures
        r@ == exported(
            format,
            content@,
            match blocks {
                Some(bs) => Some(bs@),
                None => None,
            },
        ),
{
    match blocks {
        Some(bs) => {
            let body = render_blocks(format, bs);
            match format {
                ExportFormat::Html => String::from_str(
                    "<!DOCTYPE html>\n                            <html>\n                            <head>\n                                <title>Document</title>\n                                <meta charset=\"utf-8\">\n                            </head>\n                            <body>",
                ).concat(body.as_str()).concat(
                    "\n                            </body>\n                            </html>\n                        ",
                ),
                _ => body,
            }
        },
        None => match format {
            ExportFormat::Html => String::from_str("<html><body><pre>").concat(content).concat(
                "</pre></body></html>",
            ),
            _ => String::from_str(content),
        },
    }
}

/// The format named by an already lowercased name, if it is one of `html`,
/// `md` and `txt`.
pub fn format_from_lowercase(lower: &str) -> (r: Option<ExportFormat>)
    ensures
        r == format_named(lower@),
{
    let s = String::from_str(lower);
    if s == String::from_str("html") {
        Some(ExportFormat::Html)
    } else if s == String::from_str("md") {
        Some(ExportFormat::Markdown)
    } else if s == String::from_str("txt") {
        Some(ExportFormat::PlainText)
    } else {
        None
    }
}

/// The export format named by `format`, in any letter case; other names are
/// refused as unsupported.
pub fn export_format(format: &str) -> (r: Result<ExportFormat, Error>)
    ensures
        match format_named(lower_of(format@)) {
            Some(f) => r == Ok::<ExportFormat, Error>(f),
            None => r matches Err(Error::UnsupportedFormat(x)) && x@ == format@,
        },
{
    let lower = lowercase(format);
    match format_from_lowercase(lower.as_str()) {
        Some(f) => Ok(f),
        None => Err(Error::UnsupportedFormat(String::from_str(format))),
    }
}

impl ExportFormat {
    /// The file extension of this format.
    pub fn extension(&self) -> (r: &'static str)
        ensures
            r@ == match self {
                ExportFormat::Html => "html"@,
                ExportFormat::Markdown => "md"@,
                ExportFormat::PlainText => "txt"@,
            },
    {
        match self {
            ExportFormat::Html => "html",
            ExportFormat::Markdown => "md",
            ExportFormat::PlainText => "txt",
        }
    }
}

} // verus!
