//! The shape of a JSON text, as far as the override source needs it.

use serde_json::Value;
use vstd::prelude::*;

use crate::table::Text;

verus! {

/// What a JSON text holds at its top level. Of each element of an array and of
/// each member of an object only the text is kept, where the value is a string.
#[derive(Debug, PartialEq, Eq)]
pub enum Document {
    /// An array; `None` stands for an element that is no string.
    Array(Vec<Option<String>>),
    /// An object, member by member; `None` stands for a value that is no string.
    Object(Vec<(String, Option<String>)>),
    /// Any other value: null, a boolean, a number or a string.
    Other,
}

/// The mathematical form of a [`Document`].
pub enum DocumentView {
    Array(Seq<Option<Text>>),
    Object(Seq<(Text, Option<Text>)>),
    Other,
}

impl View for Document {
    type V = DocumentView;

    open spec fn view(&self) -> DocumentView {
        match self {
            Document::Array(items) => DocumentView::Array(items.deep_view()),
            Document::Object(members) => DocumentView::Object(members.deep_view()),
            Document::Other => DocumentView::Other,
        }
    }
}

/// What `serde_json` reads from `text`: the document, or `None` where `text` is
/// not one JSON value.
pub uninterp spec fn json_document(text: Text) -> Option<DocumentView>;

/// Parses `text` with `serde_json::from_str` into a `serde_json::Value` and keeps
/// its top level: the elements of an array in order, the members of an object in
/// the order in which `serde_json::Map` hands them out, each with its text where
/// it is a `Value::String`. The contract claims only that the outcome is a
/// function of `text`, named [`json_document`]; a text that `serde_json` rejects
/// gives `None`.
#[verifier::external_body]
pub(crate) fn parse_document(text: &str) -> (parsed: Option<Document>)
    ensures
        match parsed {
            Some(document) => json_document(text@) == Some(document@),
            None => json_document(text@) is None,
        },
{
    let text_of = |value: Value| match value {
        Value::String(text) => Some(text),
        _ => None,
    };
    match serde_json::from_str::<Value>(text).ok()? {
        Value::Array(items) => Some(Document::Array(items.into_iter().map(text_of).collect())),
        Value::Object(members) => Some(
            Document::Object(members.into_iter().map(|(key, value)| (key, text_of(value))).collect()),
        ),
        _ => Some(Document::Other),
    }
}

} // verus!
