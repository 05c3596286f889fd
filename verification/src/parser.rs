//! Reading a document back from its JSON value or text.
//!
//! A value is read as a document exactly if it is what the writer produces
//! for some document: the same members in the same order, and name and
//! description the same text. Anything else is no document.

use crate::document::{
    attribute_views, optional_view, AttributeEntry, AttributeView, DocumentView,
    MetadataDocument,
};
use crate::json::{
    borrowed_member_models, json_as_list, json_as_record, json_as_text, json_model, json_models,
    json_parsed, parse_json, JsonTree,
};
use crate::writer::{
    attribute_tree, attribute_trees, document_keys, document_members, document_tree,
    lemma_document_keys, lemma_key_names_differ,
};
use vstd::prelude::*;

verus! {

/// The text of a member, if the member has the given key and holds a text.
pub open spec fn member_text(member: (Seq<char>, JsonTree), key: &str) -> Option<Seq<char>> {
    if member.0 == key@ && member.1 is Text {
        Some(member.1->Text_0)
    } else {
        None
    }
}

/// The attribute that a tree stands for: a record of exactly `trait_type`,
/// `value` and `display_type`, in this order, each a text.
pub open spec fn attribute_from_tree(tree: JsonTree) -> Option<AttributeView> {
    if tree is Record && tree->Record_0.len() == 3 {
        let m = tree->Record_0;
        match (
            member_text(m[0], "trait_type"),
            member_text(m[1], "value"),
            member_text(m[2], "display_type"),
        ) {
            (Some(trait_type), Some(value), Some(display_type)) => Some(
                AttributeView { trait_type, value, display_type },
            ),
            _ => None,
        }
    } else {
        None
    }
}

/// The attributes that a list of trees stands for, if each of them stands
/// for one.
pub open spec fn attributes_from_trees(items: Seq<JsonTree>) -> Option<Seq<AttributeView>> {
    if forall|i: int| 0 <= i < items.len() ==> attribute_from_tree(#[trigger] items[i]) is Some {
        Some(items.map_values(|t: JsonTree| attribute_from_tree(t).unwrap()))
    } else {
        None
    }
}

/// The document that a tree stands for: a record of `name`, `description`
/// and `image`, then `video` and `external_url` or neither or one of them,
/// then `attributes`, in this order and with nothing else; the first five
/// texts, name and description the same, the last a list of attributes.
pub open spec fn document_from_tree(tree: JsonTree) -> Option<DocumentView> {
    if tree is Record && tree->Record_0.len() >= 4 {
        let m = tree->Record_0;
        let video = member_text(m[3], "video");
        let after_video: int = if video is Some {
            4
        } else {
            3
        };
        let link = if after_video < m.len() {
            member_text(m[after_video], "external_url")
        } else {
            None
        };
        let last: int = if link is Some {
            after_video + 1
        } else {
            after_video
        };
        match (
            member_text(m[0], "name"),
            member_text(m[1], "description"),
            member_text(m[2], "image"),
        ) {
            (Some(name), Some(description), Some(image)) => {
                if name == description && last + 1 == m.len() && m[last].0 == "attributes"@
                    && m[last].1 is List {
                    match attributes_from_trees(m[last].1->List_0) {
                        Some(attributes) => Some(
                            DocumentView {
                                name,
                                description,
                                image,
                                video,
                                external_url: link,
                                attributes,
                            },
                        ),
                        None => None,
                    }
                } else {
                    None
                }
            },
            _ => None,
        }
    } else {
        None
    }
}

/// The model of an optional borrowed text.
pub open spec fn optional_str(text: Option<&str>) -> Option<Seq<char>> {
    match text {
        Some(s) => Some(s@),
        None => None,
    }
}

/// The model of an optional attribute.
pub open spec fn optional_attribute(entry: Option<AttributeEntry>) -> Option<AttributeView> {
    match entry {
        Some(e) => Some(e@),
        None => None,
    }
}

/// The model of an optional document.
pub open spec fn optional_document(doc: Option<MetadataDocument>) -> Option<DocumentView> {
    match doc {
        Some(d) => Some(d@),
        None => None,
    }
}

fn text_under<'a>(member: &(&'a String, &'a serde_json::Value), key: &str) -> (r: Option<&'a str>)
    ensures
        optional_str(r) == member_text((member.0@, json_model(*member.1)), key),
{
    if *member.0 == key.to_owned() {
        json_as_text(member.1)
    } else {
        None
    }
}

fn owned(text: Option<&str>) -> (r: Option<String>)
    ensures
        optional_view(r) == optional_str(text),
{
    match text {
        Some(s) => Some(s.to_owned()),
        None => None,
    }
}

/// Reads one attribute from its JSON value.
pub fn attribute_from_value(v: &serde_json::Value) -> (r: Option<AttributeEntry>)
    ensures
        optional_attribute(r) == attribute_from_tree(json_model(*v)),
{
    let members = match json_as_record(v) {
        Some(m) => m,
        None => {
            return None;
        },
    };
    if members.len() != 3 {
        return None;
    }
    let ghost m = borrowed_member_models(members@);
    assert(m[0] == (members[0].0@, json_model(*members[0].1)));
    assert(m[1] == (members[1].0@, json_model(*members[1].1)));
    assert(m[2] == (members[2].0@, json_model(*members[2].1)));
    match (
        text_under(&members[0], "trait_type"),
        text_under(&members[1], "value"),
        text_under(&members[2], "display_type"),
    ) {
        (Some(trait_type), Some(value), Some(display_type)) => Some(
            AttributeEntry {
                trait_type: trait_type.to_owned(),
                value: value.to_owned(),
                display_type: display_type.to_owned(),
            },
        ),
        _ => None,
    }
}

fn attributes_from_values(items: &Vec<serde_json::Value>) -> (r: Option<Vec<AttributeEntry>>)
    ensures
        r matches Some(entries) ==> attributes_from_trees(json_models(items@)) == Some(
            attribute_views(entries@),
        ),
        r is None ==> attributes_from_trees(json_models(items@)) is None,
{
    let ghost trees = json_models(items@);
    let mut entries: Vec<AttributeEntry> = Vec::new();
    let mut i: usize = 0;
    while i < items.len()
        invariant
            i <= items.len(),
            trees == json_models(items@),
            entries.len() == i,
            forall|k: int|
                0 <= k < i ==> attribute_from_tree(trees[k]) == Some((#[trigger] entries[k])@),
        decreases items.len() - i,
    {
        assert(trees[i as int] == json_model(items[i as int]));
        match attribute_from_value(&items[i]) {
            Some(entry) => {
                entries.push(entry);
            },
            None => {
                return None;
            },
        }
        i += 1;
    }
    assert forall|k: int| 0 <= k < trees.len() implies attribute_from_tree(
        #[trigger] trees[k],
    ) is Some by {
        assert(attribute_from_tree(trees[k]) == Some(entries[k]@));
    }
    assert(attribute_views(entries@) =~= trees.map_values(
        |t: JsonTree| attribute_from_tree(t).unwrap(),
    ));
    Some(entries)
}

/// Reads a document from its JSON value: the document that the value stands
/// for, `None` where it stands for none.
pub fn from_value(v: &serde_json::Value) -> (r: Option<MetadataDocument>)
    ensures
        optional_document(r) == document_from_tree(json_model(*v)),
{
    let members = match json_as_record(v) {
        Some(m) => m,
        None => {
            return None;
        },
    };
    if members.len() < 4 {
        return None;
    }
    let ghost m = borrowed_member_models(members@);
    assert(forall|k: int|
        0 <= k < members.len() ==> #[trigger] m[k] == (
            members[k].0@,
            json_model(*members[k].1),
        ));
    let video = text_under(&members[3], "video");
    let after_video: usize = if video.is_some() {
        4
    } else {
        3
    };
    let link = if after_video < members.len() {
        text_under(&members[after_video], "external_url")
    } else {
        None
    };
    let last: usize = if link.is_some() {
        after_video + 1
    } else {
        after_video
    };
    match (
        text_under(&members[0], "name"),
        text_under(&members[1], "description"),
        text_under(&members[2], "image"),
    ) {
        (Some(name), Some(description), Some(image)) => {
            if last + 1 != members.len() {
                return None;
            }
            let name = name.to_owned();
            let description = description.to_owned();
            if name != description {
                return None;
            }
            if *members[last].0 != "attributes".to_owned() {
                return None;
            }
            let items = match json_as_list(members[last].1) {
                Some(l) => l,
                None => {
                    return None;
                },
            };
            match attributes_from_values(items) {
                Some(attributes) => Some(
                    MetadataDocument::new(
                        name,
                        image.to_owned(),
                        owned(video),
                        owned(link),
                        attributes,
                    ),
                ),
                None => None,
            }
        },
        _ => None,
    }
}

/// What [`parse_document`] returns for each outcome of reading the text as
/// a JSON value.
pub fn document_read(outcome: Result<serde_json::Value, serde_json::Error>) -> (r: Option<
    MetadataDocument,
>)
    ensures
        outcome matches Ok(v) ==> optional_document(r) == document_from_tree(json_model(v)),
        outcome is Err ==> r is None,
{
    match outcome {
        Ok(v) => from_value(&v),
        Err(_) => None,
    }
}

/// Reads a document from JSON text: the document that the value of the text
/// stands for, `None` where the text is no JSON value or its value stands
/// for no document.
pub fn parse_document(text: &str) -> (r: Option<MetadataDocument>)
    ensures
        json_parsed(text@) matches Some(tree) ==> optional_document(r) == document_from_tree(tree),
        json_parsed(text@) is None ==> r is None,
{
    document_read(parse_json(text))
}

/// An attribute's tree stands for the attribute, and for no other.
pub proof fn lemma_attribute_from_tree(tree: JsonTree, a: AttributeView)
    ensures
        attribute_from_tree(tree) == Some(a) <==> tree == attribute_tree(a),
{
    if attribute_from_tree(tree) == Some(a) {
        let m = tree->Record_0;
        assert(m =~= attribute_tree(a)->Record_0);
    }
}

/// The trees of a list of attributes stand for these attributes, and for no
/// others.
pub proof fn lemma_attributes_from_trees(items: Seq<JsonTree>, attributes: Seq<AttributeView>)
    ensures
        attributes_from_trees(items) == Some(attributes) <==> items == attribute_trees(
            attributes,
        ),
{
    if attributes_from_trees(items) == Some(attributes) {
        assert forall|i: int| 0 <= i < items.len() implies items[i] == attribute_tree(
            attributes[i],
        ) by {
            lemma_attribute_from_tree(items[i], attributes[i]);
        }
        assert(items =~= attribute_trees(attributes));
    }
    if items == attribute_trees(attributes) {
        assert forall|i: int| 0 <= i < items.len() implies attribute_from_tree(
            #[trigger] items[i],
        ) == Some(attributes[i]) by {
            lemma_attribute_from_tree(items[i], attributes[i]);
        }
        assert(items.map_values(|t: JsonTree| attribute_from_tree(t).unwrap()) =~= attributes);
    }
}

/// Reading inverts writing: a tree stands for a document exactly if it is
/// the tree of that document and the document's name is its description. So
/// the value that the writer builds for a document is read back as the same
/// document, and two documents with the same value are the same.
pub proof fn lemma_document_from_tree(tree: JsonTree, d: DocumentView)
    ensures
        document_from_tree(tree) == Some(d) <==> (d.well_formed() && tree == document_tree(d)),
{
    lemma_key_names_differ();
    if document_from_tree(tree) == Some(d) {
        let m = tree->Record_0;
        let last = m.len() - 1;
        lemma_attributes_from_trees(m[last].1->List_0, d.attributes);
        assert(m =~= document_members(d));
    }
    if d.well_formed() && tree == document_tree(d) {
        let m = document_members(d);
        lemma_attributes_from_trees(attribute_trees(d.attributes), d.attributes);
        lemma_document_keys(d);
        match (d.video, d.external_url) {
            (Some(_), Some(_)) => {
                assert(m[5].0 == document_keys(d)[5]);
            },
            (Some(_), None) => {
                assert(m[4].0 == document_keys(d)[4]);
            },
            (None, Some(_)) => {
                assert(m[4].0 == document_keys(d)[4]);
            },
            (None, None) => {
                assert(m[3].0 == document_keys(d)[3]);
            },
        }
    }
}

} // verus!
