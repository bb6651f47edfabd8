//! The override table: identifier/name pairs that a JSON source supplies.

use vstd::prelude::*;

use crate::json::{json_document, parse_document, Document, DocumentView};
use crate::table::{Entry, Pairs, Text};

verus! {

/// The pair that one member of an object supplies: none where its value is no string.
pub open spec fn member_pair(member: (Text, Option<Text>)) -> Option<(Text, Text)> {
    match member.1 {
        Some(name) => Some((member.0, name)),
        None => None,
    }
}

/// The overrides that a document supplies. An object gives one pair for each
/// member whose value is a string, in the object's order. An array gives one
/// pair if it consists of exactly two strings, and nothing otherwise. Any other
/// document gives nothing.
pub open spec fn document_pairs(document: DocumentView) -> Pairs {
    match document {
        DocumentView::Array(items) => {
            if items.len() == 2 && items[0] is Some && items[1] is Some {
                seq![(items[0]->0, items[1]->0)]
            } else {
                Seq::empty()
            }
        },
        DocumentView::Object(members) => members.filter_map(|member| member_pair(member)),
        DocumentView::Other => Seq::empty(),
    }
}

/// The overrides that a source supplies: those of its document, and nothing
/// where the source is missing or is not JSON.
pub open spec fn source_pairs(content: Option<Text>) -> Pairs {
    match content {
        Some(text) => match json_document(text) {
            Some(document) => document_pairs(document),
            None => Seq::empty(),
        },
        None => Seq::empty(),
    }
}

/// A document in none of the two accepted shapes: neither an object nor an
/// array of exactly two strings.
pub open spec fn unsupported(document: DocumentView) -> bool {
    match document {
        DocumentView::Array(items) => !(items.len() == 2 && items[0] is Some && items[1] is Some),
        DocumentView::Object(_) => false,
        DocumentView::Other => true,
    }
}

/// A source is malformed where it is not JSON or its document has no
/// accepted shape.
pub open spec fn malformed(text: Text) -> bool {
    match json_document(text) {
        Some(document) => unsupported(document),
        None => true,
    }
}

/// A malformed source supplies what a missing source supplies: nothing.
pub proof fn lemma_malformed_as_missing(text: Text)
    requires
        malformed(text),
    ensures
        source_pairs(Some(text)) == source_pairs(None),
        source_pairs(Some(text)) == Pairs::empty(),
{
}

/// Collects the overrides of a parsed document.
pub fn overrides_from_document(document: &Document) -> (entries: Vec<Entry>)
    ensures
        entries.deep_view() == document_pairs(document@),
{
    let mut entries: Vec<Entry> = Vec::new();
    match document {
        Document::Array(items) => {
            if items.len() == 2 {
                match (&items[0], &items[1]) {
                    (Some(id), Some(name)) => {
                        entries.push(Entry { id: id.clone(), name: name.clone() });
                    },
                    _ => {},
                }
            }
        },
        Document::Object(members) => {
            let ghost pair_of = |member: (Text, Option<Text>)| member_pair(member);
            let mut i: usize = 0;
            while i < members.len()
                invariant
                    i <= members.len(),
                    pair_of == |member: (Text, Option<Text>)| member_pair(member),
                    entries.deep_view() == members.deep_view().take(i as int).filter_map(pair_of),
                decreases members.len() - i,
            {
                proof {
                    members.deep_view().lemma_filter_map_take_succ(pair_of, i as int);
                }
                match &members[i].1 {
                    Some(name) => {
                        entries.push(Entry { id: members[i].0.clone(), name: name.clone() });
                    },
                    None => {},
                }
                i += 1;
            }
            assert(members.deep_view().take(members.len() as int) == members.deep_view());
        },
        Document::Other => {},
    }
    entries
}

/// Reads the overrides out of the text of an override source.
pub fn parse_overrides(text: &str) -> (entries: Vec<Entry>)
    ensures
        entries.deep_view() == source_pairs(Some(text@)),
{
    match parse_document(text) {
        Some(document) => overrides_from_document(&document),
        None => Vec::new(),
    }
}

/// Reads the overrides out of an override source that may be missing.
pub fn load_overrides(content: Option<&str>) -> (entries: Vec<Entry>)
    ensures
        entries.deep_view() == source_pairs(
            match content {
                Some(text) => Some(text@),
                None => None,
            },
        ),
{
    match content {
        Some(text) => parse_overrides(text),
        None => Vec::new(),
    }
}

} // verus!
