//! The document writer: a document as a JSON value and as indented text.

use crate::document::{
    attribute_views, AttributeEntry, AttributeView, DocumentView, MetadataDocument,
};
use crate::json::{
    json_list, json_model, json_models, json_pretty, json_record, json_text, keys_distinct,
    member_models, pretty_text, JsonTree,
};
use vstd::prelude::*;

verus! {

/// A record member that holds a text.
pub open spec fn text_member(key: &str, text: Seq<char>) -> (Seq<char>, JsonTree) {
    (key@, JsonTree::Text(text))
}

/// The member of an optional text: there only if the text is.
pub open spec fn optional_member(key: &str, text: Option<Seq<char>>) -> Seq<(Seq<char>, JsonTree)> {
    match text {
        Some(t) => seq![text_member(key, t)],
        None => Seq::empty(),
    }
}

/// An attribute as a JSON record: `trait_type`, `value`, `display_type`.
pub open spec fn attribute_tree(a: AttributeView) -> JsonTree {
    JsonTree::Record(
        seq![
            text_member("trait_type", a.trait_type),
            text_member("value", a.value),
            text_member("display_type", a.display_type),
        ],
    )
}

/// The attributes of a document as JSON records, in their order.
pub open spec fn attribute_trees(attributes: Seq<AttributeView>) -> Seq<JsonTree> {
    attributes.map_values(|a: AttributeView| attribute_tree(a))
}

/// The members of a document's JSON record, in the order in which they are
/// written: `name`, `description`, `image`, then `video` and `external_url`
/// where the document has them, then `attributes`.
pub open spec fn document_members(d: DocumentView) -> Seq<(Seq<char>, JsonTree)> {
    seq![
        text_member("name", d.name),
        text_member("description", d.description),
        text_member("image", d.image),
    ] + optional_member("video", d.video) + optional_member("external_url", d.external_url)
        + seq![("attributes"@, JsonTree::List(attribute_trees(d.attributes)))]
}

/// A document as a JSON value.
pub open spec fn document_tree(d: DocumentView) -> JsonTree {
    JsonTree::Record(document_members(d))
}

/// The key of each member of a document's record, in the order in which
/// the members are written.
pub open spec fn document_keys(d: DocumentView) -> Seq<Seq<char>> {
    seq!["name"@, "description"@, "image"@] + (if d.video is Some {
        seq!["video"@]
    } else {
        Seq::empty()
    }) + (if d.external_url is Some {
        seq!["external_url"@]
    } else {
        Seq::empty()
    }) + seq!["attributes"@]
}

/// The six keys of a document's record are six different texts, and so are
/// the three keys of an attribute's record.
pub proof fn lemma_key_names_differ()
    ensures
        "name"@ != "description"@,
        "name"@ != "image"@,
        "name"@ != "video"@,
        "name"@ != "external_url"@,
        "name"@ != "attributes"@,
        "description"@ != "image"@,
        "description"@ != "video"@,
        "description"@ != "external_url"@,
        "description"@ != "attributes"@,
        "image"@ != "video"@,
        "image"@ != "external_url"@,
        "image"@ != "attributes"@,
        "video"@ != "external_url"@,
        "video"@ != "attributes"@,
        "external_url"@ != "attributes"@,
        "trait_type"@ != "value"@,
        "trait_type"@ != "display_type"@,
        "value"@ != "display_type"@,
{
    reveal_strlit("name");
    reveal_strlit("description");
    reveal_strlit("image");
    reveal_strlit("video");
    reveal_strlit("external_url");
    reveal_strlit("attributes");
    reveal_strlit("trait_type");
    reveal_strlit("value");
    reveal_strlit("display_type");
    assert("name"@[0] == 'n');
    assert("description"@[0] == 'd');
    assert("image"@[0] == 'i');
    assert("video"@[0] == 'v');
    assert("external_url"@[0] == 'e');
    assert("attributes"@[0] == 'a');
    assert("trait_type"@[0] == 't');
    assert("value"@[0] == 'v');
    assert("display_type"@[0] == 'd');
}

/// The members of a document's record carry the keys of [`document_keys`].
pub proof fn lemma_document_keys(d: DocumentView)
    ensures
        document_members(d).len() == document_keys(d).len(),
        forall|i: int|
            0 <= i < document_keys(d).len() ==> (#[trigger] document_members(d)[i]).0
                == document_keys(d)[i],
{
    let members = document_members(d);
    let keys = document_keys(d);
    assert forall|i: int| 0 <= i < keys.len() implies (#[trigger] members[i]).0 == keys[i] by {
        match (d.video, d.external_url) {
            (Some(_), Some(_)) => {
                assert(members[3].0 == keys[3]);
                assert(members[4].0 == keys[4]);
                assert(members[5].0 == keys[5]);
            },
            (Some(_), None) => {
                assert(members[3].0 == keys[3]);
                assert(members[4].0 == keys[4]);
            },
            (None, Some(_)) => {
                assert(members[3].0 == keys[3]);
                assert(members[4].0 == keys[4]);
            },
            (None, None) => {
                assert(members[3].0 == keys[3]);
            },
        }
    }
}

/// No two members of an attribute's record share a key.
pub proof fn lemma_attribute_keys_distinct(a: AttributeView)
    ensures
        attribute_tree(a) matches JsonTree::Record(members) && keys_distinct(members),
{
    lemma_key_names_differ();
}

/// No two members of a document's record share a key.
pub proof fn lemma_document_keys_distinct(d: DocumentView)
    ensures
        keys_distinct(document_members(d)),
{
    lemma_key_names_differ();
    lemma_document_keys(d);
    let members = document_members(d);
    let keys = document_keys(d);
    assert forall|i: int, j: int| 0 <= i < j < members.len() implies (#[trigger] members[i]).0 != (
        #[trigger] members[j]
    ).0 by {
        assert(keys[i] != keys[j]);
    }
}

/// The JSON value of one attribute.
pub fn attribute_value(entry: &AttributeEntry) -> (v: serde_json::Value)
    ensures
        json_model(v) == attribute_tree(entry@),
{
    let mut members: Vec<(String, serde_json::Value)> = Vec::new();
    members.push(("trait_type".to_owned(), json_text(entry.trait_type.as_str())));
    members.push(("value".to_owned(), json_text(entry.value.as_str())));
    members.push(("display_type".to_owned(), json_text(entry.display_type.as_str())));
    proof {
        lemma_attribute_keys_distinct(entry@);
        assert(member_models(members@) =~= attribute_tree(entry@)->Record_0);
    }
    json_record(members)
}

/// The JSON value of a document: a record with the members of
/// [`document_members`], so a missing video or external link leaves no key
/// behind.
pub fn to_value(doc: &MetadataDocument) -> (v: serde_json::Value)
    ensures
        json_model(v) == document_tree(doc@),
{
    let attributes = doc.attributes();
    let mut items: Vec<serde_json::Value> = Vec::new();
    let mut i: usize = 0;
    while i < attributes.len()
        invariant
            i <= attributes.len(),
            items.len() == i,
            forall|k: int|
                0 <= k < i ==> json_model(#[trigger] items[k]) == attribute_tree(attributes[k]@),
        decreases attributes.len() - i,
    {
        items.push(attribute_value(&attributes[i]));
        i += 1;
    }
    assert(json_models(items@) =~= attribute_trees(attribute_views(attributes@)));

    let mut members: Vec<(String, serde_json::Value)> = Vec::new();
    members.push(("name".to_owned(), json_text(doc.name())));
    members.push(("description".to_owned(), json_text(doc.description())));
    members.push(("image".to_owned(), json_text(doc.image())));
    if let Some(video) = doc.video() {
        members.push(("video".to_owned(), json_text(video.as_str())));
    }
    if let Some(link) = doc.external_url() {
        members.push(("external_url".to_owned(), json_text(link.as_str())));
    }
    members.push(("attributes".to_owned(), json_list(items)));
    proof {
        lemma_document_keys_distinct(doc@);
        assert(member_models(members@) =~= document_members(doc@));
    }
    json_record(members)
}

/// Why a document could not be written as text.
#[derive(Clone, Copy, Debug, PartialEq, Eq)]
pub enum RenderError {
    /// `serde_json` reported an error while writing the value.
    Rejected,
}

/// What [`render`] returns for each outcome of writing the document's value
/// as text.
pub fn rendered(outcome: Result<String, serde_json::Error>) -> (r: Result<String, RenderError>)
    ensures
        outcome matches Ok(text) ==> r == Ok::<String, RenderError>(text),
        outcome is Err ==> r == Err::<String, RenderError>(RenderError::Rejected),
{
    match outcome {
        Ok(text) => Ok(text),
        Err(_) => Err(RenderError::Rejected),
    }
}

/// The document as indented text: the text that `serde_json` writes for the
/// value of [`to_value`].
pub fn render(doc: &MetadataDocument) -> (r: Result<String, RenderError>)
    ensures
        r matches Ok(text) ==> json_pretty(document_tree(doc@)) == Some(text@),
        r is Err ==> json_pretty(document_tree(doc@)) is None,
{
    let value = to_value(doc);
    rendered(pretty_text(&value))
}

} // verus!
