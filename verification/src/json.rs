//! Reading single values out of JSON text, and writing JSON strings.

use vstd::prelude::*;

use crate::codec::hex_digit;

verus! {

/// What stands at one place of a JSON document.
#[derive(Debug, Clone, PartialEq, Eq)]
pub enum JsonNode {
    /// The document is not JSON.
    Malformed,
    /// The document has nothing at that place.
    Absent,
    Null,
    Bool(bool),
    /// A number that is an integer from 0 to `u64::MAX`.
    Unsigned(u64),
    /// Any other number.
    OtherNumber,
    Text(String),
    /// An array, with the number of its items.
    Array(usize),
    /// An object, with the number of its members.
    Object(usize),
}

pub enum JsonNodeView {
    Malformed,
    Absent,
    Null,
    Bool(bool),
    Unsigned(u64),
    OtherNumber,
    Text(Seq<char>),
    Array(usize),
    Object(usize),
}

impl View for JsonNode {
    type V = JsonNodeView;

    open spec fn view(&self) -> JsonNodeView {
        match *self {
            JsonNode::Malformed => JsonNodeView::Malformed,
            JsonNode::Absent => JsonNodeView::Absent,
            JsonNode::Null => JsonNodeView::Null,
            JsonNode::Bool(b) => JsonNodeView::Bool(b),
            JsonNode::Unsigned(n) => JsonNodeView::Unsigned(n),
            JsonNode::OtherNumber => JsonNodeView::OtherNumber,
            JsonNode::Text(t) => JsonNodeView::Text(t@),
            JsonNode::Array(n) => JsonNodeView::Array(n),
            JsonNode::Object(n) => JsonNodeView::Object(n),
        }
    }
}

/// What stands in the JSON text `document` at the place that the JSON
/// pointer `pointer` names.
pub uninterp spec fn json_node(document: Seq<char>, pointer: Seq<char>) -> JsonNodeView;

/// How one character stands inside a JSON string: the quote and the
/// reverse solidus behind a reverse solidus, backspace, tab, line feed, form
/// feed and carriage return by their letters, any other character below
/// U+0020 as `\u00` and two lower-case hexadecimal digits, and every other
/// character as it is.
pub open spec fn json_escaped(c: char) -> Seq<char> {
    let u = c as u32;
    if c == '"' {
        seq!['\\', '"']
    } else if c == '\\' {
        seq!['\\', '\\']
    } else if u == 0x08 {
        seq!['\\', 'b']
    } else if u == 0x09 {
        seq!['\\', 't']
    } else if u == 0x0A {
        seq!['\\', 'n']
    } else if u == 0x0C {
        seq!['\\', 'f']
    } else if u == 0x0D {
        seq!['\\', 'r']
    } else if u < 0x20 {
        seq!['\\', 'u', '0', '0', hex_digit(u as int / 16), hex_digit(u as int % 16)]
    } else {
        seq![c]
    }
}

/// The characters of a text, each as it stands inside a JSON string.
pub open spec fn json_escaped_text(text: Seq<char>) -> Seq<char>
    decreases text.len(),
{
    if text.len() == 0 {
        Seq::empty()
    } else {
        json_escaped_text(text.drop_last()) + json_escaped(text.last())
    }
}

/// The JSON string literal for a text: its escaped characters between two
/// quotes.
#[verifier::opaque]
pub open spec fn json_string(text: Seq<char>) -> Seq<char> {
    seq!['"'] + json_escaped_text(text) + seq!['"']
}

/// Parses `document` with `serde_json::from_str` into a `serde_json::Value`
/// and looks up `pointer` with `Value::pointer`. The value found is
/// reported by its kind, with its content where it is a boolean, an
/// unsigned integer or a string, and its length where it is an array or an
/// object.
#[verifier::external_body]
pub(crate) fn json_node_at(document: &str, pointer: &str) -> (node: JsonNode)
    ensures
        node@ == json_node(document@, pointer@),
{
    match serde_json::from_str::<serde_json::Value>(document) {
        Err(_) => JsonNode::Malformed,
        Ok(value) => match value.pointer(pointer) {
            None => JsonNode::Absent,
            Some(serde_json::Value::Null) => JsonNode::Null,
            Some(serde_json::Value::Bool(b)) => JsonNode::Bool(*b),
            Some(serde_json::Value::Number(n)) => n.as_u64().map_or(
                JsonNode::OtherNumber,
                JsonNode::Unsigned,
            ),
            Some(serde_json::Value::String(s)) => JsonNode::Text(s.clone()),
            Some(serde_json::Value::Array(items)) => JsonNode::Array(items.len()),
            Some(serde_json::Value::Object(members)) => JsonNode::Object(members.len()),
        },
    }
}

/// Calls `serde_json::to_string` on a string slice, which writes the text
/// as a JSON string literal into a buffer in memory and so cannot fail:
/// a quote, the characters escaped as `json_escaped` says, a quote.
#[verifier::external_body]
pub(crate) fn json_quote(text: &str) -> (quoted: String)
    ensures
        quoted@ == json_string(text@),
{
    serde_json::to_string(text).unwrap_or_default()
}

} // verus!
