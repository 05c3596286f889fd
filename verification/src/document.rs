//! Metadata documents and the transformation of a row into one.

use crate::record::{value_of, RowRecord};
use crate::schema::{BindingView, Schema, SchemaView};
use crate::text::{trim_text, trimmed};
use vstd::prelude::*;

verus! {

/// One trait descriptor of a document.
#[derive(Debug, PartialEq, Eq)]
pub struct AttributeEntry {
    pub trait_type: String,
    pub value: String,
    pub display_type: String,
}

/// The model of an [`AttributeEntry`].
pub struct AttributeView {
    pub trait_type: Seq<char>,
    pub value: Seq<char>,
    pub display_type: Seq<char>,
}

impl View for AttributeEntry {
    type V = AttributeView;

    open spec fn view(&self) -> AttributeView {
        AttributeView {
            trait_type: self.trait_type@,
            value: self.value@,
            display_type: self.display_type@,
        }
    }
}

impl Clone for AttributeEntry {
    fn clone(&self) -> (copy: AttributeEntry)
        ensures
            copy@ == self@,
    {
        AttributeEntry {
            trait_type: self.trait_type.clone(),
            value: self.value.clone(),
            display_type: self.display_type.clone(),
        }
    }
}

/// The metadata of one item: what one row of the table turns into. Name and
/// description of a document are always the same text.
#[derive(Debug, PartialEq, Eq)]
pub struct MetadataDocument {
    name: String,
    description: String,
    image: String,
    video: Option<String>,
    external_url: Option<String>,
    attributes: Vec<AttributeEntry>,
}

/// The model of a [`MetadataDocument`].
pub struct DocumentView {
    pub name: Seq<char>,
    pub description: Seq<char>,
    pub image: Seq<char>,
    pub video: Option<Seq<char>>,
    pub external_url: Option<Seq<char>>,
    pub attributes: Seq<AttributeView>,
}

/// The model of an optional text.
pub open spec fn optional_view(text: Option<String>) -> Option<Seq<char>> {
    match text {
        Some(s) => Some(s@),
        None => None,
    }
}

/// The models of a list of attributes.
pub open spec fn attribute_views(attributes: Seq<AttributeEntry>) -> Seq<AttributeView> {
    attributes.map_values(|a: AttributeEntry| a@)
}

impl View for MetadataDocument {
    type V = DocumentView;

    closed spec fn view(&self) -> DocumentView {
        DocumentView {
            name: self.name@,
            description: self.description@,
            image: self.image@,
            video: optional_view(self.video),
            external_url: optional_view(self.external_url),
            attributes: attribute_views(self.attributes@),
        }
    }
}

fn copy_of(text: &Option<String>) -> (copy: Option<String>)
    ensures
        optional_view(copy) == optional_view(*text),
{
    match text {
        Some(s) => Some(s.clone()),
        None => None,
    }
}

impl Clone for MetadataDocument {
    fn clone(&self) -> (copy: MetadataDocument)
        ensures
            copy@ == self@,
    {
        proof {
            use_type_invariant(self);
        }
        let mut attributes: Vec<AttributeEntry> = Vec::new();
        let mut i: usize = 0;
        while i < self.attributes.len()
            invariant
                i <= self.attributes.len(),
                attributes.len() == i,
                forall|k: int| 0 <= k < i ==> (#[trigger] attributes[k])@ == self.attributes[k]@,
            decreases self.attributes.len() - i,
        {
            attributes.push(self.attributes[i].clone());
            i += 1;
        }
        assert(attribute_views(attributes@) =~= attribute_views(self.attributes@));
        MetadataDocument {
            name: self.name.clone(),
            description: self.description.clone(),
            image: self.image.clone(),
            video: copy_of(&self.video),
            external_url: copy_of(&self.external_url),
            attributes,
        }
    }
}

impl DocumentView {
    /// Name and description of a document are the same text.
    pub open spec fn well_formed(self) -> bool {
        self.name == self.description
    }
}

impl MetadataDocument {
    #[verifier::type_invariant]
    spec fn name_is_description(self) -> bool {
        self.name@ == self.description@
    }

    /// The document with the given title as name and description.
    pub fn new(
        title: String,
        image: String,
        video: Option<String>,
        external_url: Option<String>,
        attributes: Vec<AttributeEntry>,
    ) -> (doc: MetadataDocument)
        ensures
            doc@ == (DocumentView {
                name: title@,
                description: title@,
                image: image@,
                video: optional_view(video),
                external_url: optional_view(external_url),
                attributes: attribute_views(attributes@),
            }),
    {
        let description = title.clone();
        MetadataDocument { name: title, description, image, video, external_url, attributes }
    }

    /// The name: the title of the item as it stands in the table.
    pub fn name(&self) -> (name: &str)
        ensures
            name@ == self@.name,
            self@.well_formed(),
    {
        proof {
            use_type_invariant(self);
        }
        self.name.as_str()
    }

    /// The description: the same text as the name.
    pub fn description(&self) -> (description: &str)
        ensures
            description@ == self@.description,
            self@.well_formed(),
    {
        proof {
            use_type_invariant(self);
        }
        self.description.as_str()
    }

    /// The link of the image; empty where the table gives none.
    pub fn image(&self) -> (image: &str)
        ensures
            image@ == self@.image,
    {
        self.image.as_str()
    }

    /// The link of the video, if the table gives one.
    pub fn video(&self) -> (video: &Option<String>)
        ensures
            optional_view(*video) == self@.video,
    {
        &self.video
    }

    /// The external link, if the table gives one.
    pub fn external_url(&self) -> (link: &Option<String>)
        ensures
            optional_view(*link) == self@.external_url,
    {
        &self.external_url
    }

    /// The attributes in the order of the schema.
    pub fn attributes(&self) -> (attributes: &Vec<AttributeEntry>)
        ensures
            attribute_views(attributes@) == self@.attributes,
    {
        &self.attributes
    }
}

/// The display type of every attribute.
pub open spec fn display_type() -> Seq<char> {
    "string"@
}

/// A cell as an optional text: trimmed, and absent where nothing is left.
pub open spec fn optional_text(raw: Seq<char>) -> Option<Seq<char>> {
    if trimmed(raw).len() == 0 {
        None
    } else {
        Some(trimmed(raw))
    }
}

/// The attribute that a binding yields for a row, if the row's cell in the
/// binding's column holds more than whitespace.
pub open spec fn attribute_for(
    record: Seq<(Seq<char>, Seq<char>)>,
    binding: BindingView,
) -> Option<AttributeView> {
    match optional_text(value_of(record, binding.source_column)) {
        Some(text) => Some(
            AttributeView {
                trait_type: binding.trait_label,
                value: text,
                display_type: display_type(),
            },
        ),
        None => None,
    }
}

/// [`attribute_for`] on a fixed row, as a function of the binding.
pub open spec fn attribute_picker(record: Seq<(Seq<char>, Seq<char>)>) -> spec_fn(
    BindingView,
) -> Option<AttributeView> {
    |binding: BindingView| attribute_for(record, binding)
}

/// The attributes of a row: one per binding whose cell is not blank, in the
/// order of the bindings.
pub open spec fn attributes_of(
    bindings: Seq<BindingView>,
    record: Seq<(Seq<char>, Seq<char>)>,
) -> Seq<AttributeView> {
    bindings.filter_map(attribute_picker(record))
}

/// The document of a row under a schema.
pub open spec fn document_of(schema: SchemaView, record: Seq<(Seq<char>, Seq<char>)>) -> DocumentView {
    DocumentView {
        name: value_of(record, schema.title_column),
        description: value_of(record, schema.title_column),
        image: trimmed(value_of(record, schema.image_column)),
        video: optional_text(value_of(record, schema.video_column)),
        external_url: optional_text(value_of(record, schema.link_column)),
        attributes: attributes_of(schema.attributes, record),
    }
}

/// Trims a cell and keeps it only if something is left.
pub fn optional_cell(raw: &str) -> (text: Option<String>)
    ensures
        optional_view(text) == optional_text(raw@),
{
    let t = trim_text(raw);
    if t.as_str().is_empty() {
        None
    } else {
        Some(t)
    }
}

/// Turns one row into its document.
///
/// The title goes untrimmed into both name and description; the image link
/// is trimmed and always present; the video and the external link are trimmed
/// and present only if something is left; and every binding of the schema
/// whose cell is not blank gives one attribute, in the schema's order.
pub fn transform(schema: &Schema, record: &RowRecord) -> (doc: MetadataDocument)
    ensures
        doc@ == document_of(schema@, record@),
        doc@.well_formed(),
{
    let mut attributes: Vec<AttributeEntry> = Vec::new();
    let ghost bindings = schema@.attributes;
    let ghost pick = attribute_picker(record@);
    let mut i: usize = 0;
    assert(bindings.take(0).filter_map(pick) =~= Seq::empty());
    while i < schema.attributes.len()
        invariant
            i <= schema.attributes.len(),
            bindings == schema@.attributes,
            pick == attribute_picker(record@),
            attribute_views(attributes@) == bindings.take(i as int).filter_map(pick),
        decreases schema.attributes.len() - i,
    {
        let binding = &schema.attributes[i];
        let ghost before = attribute_views(attributes@);
        proof {
            assert(bindings[i as int] == binding@);
            bindings.lemma_filter_map_take_succ(pick, i as int);
        }
        match optional_cell(record.get(&binding.source_column)) {
            Some(text) => {
                let entry = AttributeEntry {
                    trait_type: binding.trait_label.clone(),
                    value: text,
                    display_type: "string".to_owned(),
                };
                attributes.push(entry);
                assert(attribute_views(attributes@) =~= before + seq![entry@]);
            },
            None => {},
        }
        i += 1;
    }
    assert(bindings.take(i as int) =~= bindings);
    MetadataDocument::new(
        record.get(&schema.title_column).to_owned(),
        trim_text(record.get(&schema.image_column)),
        optional_cell(record.get(&schema.video_column)),
        optional_cell(record.get(&schema.link_column)),
        attributes,
    )
}

} // verus!
