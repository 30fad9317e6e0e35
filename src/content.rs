//! Document bodies: JSON values held in their compact written form.
use vstd::prelude::*;
use vstd::string::*;
use vstd::utf8::encode_utf8;

use crate::error::DocumentError;

verus! {

/// What serde_json makes of a text: `None` when the text is not JSON, else
/// the parsed value written back compactly.
pub uninterp spec fn json_compact(text: Seq<char>) -> Option<Seq<char>>;

/// The written form of the empty document body, `{"content":""}`.
pub open spec fn empty_body() -> Seq<char> {
    "{\"content\":\"\"}"@
}

/// Number of bytes in the UTF-8 encoding of `s`.
pub open spec fn utf8_len(s: Seq<char>) -> nat {
    encode_utf8(s).len()
}

/// A document body: a JSON value, held as its compact written form.
///
/// serde_json writes object members in key order, so two bodies hold the same
/// text exactly when they are the same structured value (numbers compare by
/// their written form, so `0.0` and `-0.0` differ).
#[derive(Debug)]
pub struct Content {
    text: String,
}

impl View for Content {
    type V = Seq<char>;

    closed spec fn view(&self) -> Seq<char> {
        self.text@
    }
}

impl Clone for Content {
    fn clone(&self) -> (r: Content)
        ensures
            r == *self,
    {
        Content { text: self.text.clone() }
    }
}

impl PartialEq for Content {
    fn eq(&self, other: &Content) -> (r: bool) {
        self.text == other.text
    }
}

impl vstd::std_specs::cmp::PartialEqSpecImpl for Content {
    open spec fn obeys_eq_spec() -> bool {
        true
    }

    open spec fn eq_spec(&self, other: &Content) -> bool {
        self@ == other@
    }
}

/// Relies on serde_json::from_str to read `text` as a serde_json::Value, and on
/// that value's compact Display to write it back; the error's Display gives the
/// message.
#[verifier::external_body]
fn compact_json(text: &str) -> (r: Result<String, String>)
    ensures
        r is Ok <==> json_compact(text@) is Some,
        r matches Ok(s) ==> json_compact(text@) == Some(s@),
{
    serde_json::from_str::<serde_json::Value>(text).map(|v| v.to_string()).map_err(|e| e.to_string())
}

impl Content {
    /// The empty document body `{"content":""}`, held by every baseline version.
    pub fn empty() -> (r: Content)
        ensures
            r@ == empty_body(),
    {
        Content { text: String::from_str("{\"content\":\"\"}") }
    }

    /// Reads a document body from JSON text; text that is not JSON is refused
    /// with a serialization error.
    pub fn parse(text: &str) -> (r: Result<Content, DocumentError>)
        ensures
            match json_compact(text@) {
                Some(c) => r matches Ok(k) && k@ == c,
                None => r matches Err(DocumentError::Serde(_)),
            },
    {
        match compact_json(text) {
            Ok(s) => Ok(Content { text: s }),
            Err(msg) => Err(DocumentError::Serde(msg)),
        }
    }

    /// The compact JSON text of this body.
    pub fn as_str(&self) -> (r: &str)
        ensures
            r@ == self@,
    {
        self.text.as_str()
    }

    /// Byte length of the compact JSON text.
    pub fn byte_len(&self) -> (r: usize)
        ensures
            r == utf8_len(self@) as usize,
    {
        self.text.as_str().len()
    }

    /// Whether this is the empty document body.
    pub fn is_empty_body(&self) -> (r: bool)
        ensures
            r == (self@ == empty_body()),
    {
        let e = Content::empty();
        self.text == e.text
    }
}

} // verus!
