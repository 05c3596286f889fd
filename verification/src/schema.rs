//! Schema descriptors: which table column feeds which part of a document.
//!
//! A schema names the column of the title and of the three links, and lists
//! the columns that may become attributes, each with the label it gets. The
//! order of that list is the order of the attributes in every document.

use vstd::prelude::*;

verus! {

/// One attribute-eligible column and the label of the attribute it yields.
#[derive(Clone, Debug, PartialEq, Eq)]
pub struct AttributeBinding {
    pub source_column: String,
    pub trait_label: String,
}

/// The model of an [`AttributeBinding`].
pub struct BindingView {
    pub source_column: Seq<char>,
    pub trait_label: Seq<char>,
}

impl View for AttributeBinding {
    type V = BindingView;

    open spec fn view(&self) -> BindingView {
        BindingView { source_column: self.source_column@, trait_label: self.trait_label@ }
    }
}

/// A schema variant: column names for the fixed slots of a document and the
/// attribute bindings in priority order.
#[derive(Clone, Debug, PartialEq, Eq)]
pub struct Schema {
    pub title_column: String,
    pub image_column: String,
    pub video_column: String,
    pub link_column: String,
    pub attributes: Vec<AttributeBinding>,
}

/// The model of a [`Schema`].
pub struct SchemaView {
    pub title_column: Seq<char>,
    pub image_column: Seq<char>,
    pub video_column: Seq<char>,
    pub link_column: Seq<char>,
    pub attributes: Seq<BindingView>,
}

impl SchemaView {
    /// Every column that the schema reads, fixed slots first, then the
    /// attribute columns in priority order.
    pub open spec fn columns(self) -> Seq<Seq<char>> {
        seq![self.title_column, self.image_column, self.video_column, self.link_column]
            + self.attributes.map_values(|b: BindingView| b.source_column)
    }
}

impl View for Schema {
    type V = SchemaView;

    open spec fn view(&self) -> SchemaView {
        SchemaView {
            title_column: self.title_column@,
            image_column: self.image_column@,
            video_column: self.video_column@,
            link_column: self.link_column@,
            attributes: self.attributes@.map_values(|b: AttributeBinding| b@),
        }
    }
}

/// The model of a binding written with two literals.
pub open spec fn binding_view(column: &str, label: &str) -> BindingView {
    BindingView { source_column: column@, trait_label: label@ }
}

/// The five attributes that both variants share, in priority order.
pub open spec fn shared_attributes() -> Seq<BindingView> {
    seq![
        binding_view("GRADER", "Grader"),
        binding_view("SERIAL NUMBER", "Serial Number"),
        binding_view("GRADE", "Grade"),
        binding_view("YEAR", "Year"),
        binding_view("LANGUAGE", "Language"),
    ]
}

/// The variant whose tables name the links `image`, `video` and
/// `external_url` and carry a `SET` column.
pub open spec fn with_set_view() -> SchemaView {
    SchemaView {
        title_column: "TITLE"@,
        image_column: "image"@,
        video_column: "video"@,
        link_column: "external_url"@,
        attributes: shared_attributes().push(binding_view("SET", "Set")),
    }
}

/// The variant whose tables name the links `IMAGE URL`, `MP4 URL` and
/// `URL TO PRODUCT` and have no set attribute.
pub open spec fn without_set_view() -> SchemaView {
    SchemaView {
        title_column: "TITLE"@,
        image_column: "IMAGE URL"@,
        video_column: "MP4 URL"@,
        link_column: "URL TO PRODUCT"@,
        attributes: shared_attributes(),
    }
}

impl AttributeBinding {
    /// A binding from a column name and an attribute label.
    pub fn new(column: &str, label: &str) -> (b: AttributeBinding)
        ensures
            b@ == binding_view(column, label),
    {
        AttributeBinding { source_column: column.to_owned(), trait_label: label.to_owned() }
    }
}

impl Schema {
    /// Every column that the schema reads, fixed slots first, then the
    /// attribute columns in priority order.
    pub fn columns(&self) -> (names: Vec<String>)
        ensures
            names.deep_view() == self@.columns(),
    {
        let mut names: Vec<String> = Vec::new();
        names.push(self.title_column.clone());
        names.push(self.image_column.clone());
        names.push(self.video_column.clone());
        names.push(self.link_column.clone());
        let mut i: usize = 0;
        while i < self.attributes.len()
            invariant
                i <= self.attributes.len(),
                names.len() == 4 + i,
                names[0]@ == self.title_column@,
                names[1]@ == self.image_column@,
                names[2]@ == self.video_column@,
                names[3]@ == self.link_column@,
                forall|k: int|
                    4 <= k < 4 + i ==> (#[trigger] names[k])@ == self.attributes[k - 4].source_column@,
            decreases self.attributes.len() - i,
        {
            names.push(self.attributes[i].source_column.clone());
            i += 1;
        }
        assert(names.deep_view() =~= self@.columns());
        names
    }

    fn shared() -> (v: Vec<AttributeBinding>)
        ensures
            v@.map_values(|b: AttributeBinding| b@) == shared_attributes(),
    {
        let mut v: Vec<AttributeBinding> = Vec::new();
        v.push(AttributeBinding::new("GRADER", "Grader"));
        v.push(AttributeBinding::new("SERIAL NUMBER", "Serial Number"));
        v.push(AttributeBinding::new("GRADE", "Grade"));
        v.push(AttributeBinding::new("YEAR", "Year"));
        v.push(AttributeBinding::new("LANGUAGE", "Language"));
        assert(v@.map_values(|b: AttributeBinding| b@) =~= shared_attributes());
        v
    }

    /// The schema of tables with `image`, `video`, `external_url` and `SET`
    /// columns: six attributes, the set last.
    pub fn with_set() -> (s: Schema)
        ensures
            s@ == with_set_view(),
    {
        let mut attributes = Schema::shared();
        let ghost before = attributes@;
        attributes.push(AttributeBinding::new("SET", "Set"));
        assert(attributes@.map_values(|b: AttributeBinding| b@) =~= before.map_values(
            |b: AttributeBinding| b@,
        ).push(binding_view("SET", "Set")));
        Schema {
            title_column: "TITLE".to_owned(),
            image_column: "image".to_owned(),
            video_column: "video".to_owned(),
            link_column: "external_url".to_owned(),
            attributes,
        }
    }

    /// The schema of tables with `IMAGE URL`, `MP4 URL` and `URL TO PRODUCT`
    /// columns: five attributes, no set.
    pub fn without_set() -> (s: Schema)
        ensures
            s@ == without_set_view(),
    {
        Schema {
            title_column: "TITLE".to_owned(),
            image_column: "IMAGE URL".to_owned(),
            video_column: "MP4 URL".to_owned(),
            link_column: "URL TO PRODUCT".to_owned(),
            attributes: Schema::shared(),
        }
    }
}

} // verus!
