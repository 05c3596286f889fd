use token_metadata::document::{optional_cell, transform, AttributeEntry, MetadataDocument};
use token_metadata::record::{Field, RowRecord};
use token_metadata::schema::{AttributeBinding, Schema};
use token_metadata::text::trim_text;

fn record(fields: &[(&str, &str)]) -> RowRecord {
    RowRecord {
        fields: fields
            .iter()
            .map(|(name, value)| Field { name: name.to_string(), value: value.to_string() })
            .collect(),
    }
}

fn attribute(label: &str, value: &str) -> AttributeEntry {
    AttributeEntry {
        trait_type: label.to_string(),
        value: value.to_string(),
        display_type: "string".to_string(),
    }
}

fn sword_row() -> RowRecord {
    record(&[
        ("SERIAL NUMBER", ""),
        ("GRADER", "  PSA "),
        ("TITLE", "Sword #1"),
        ("YEAR", "2021"),
        ("LANGUAGE", ""),
        ("SET", ""),
        ("GRADE", ""),
        ("video", ""),
        ("image", "http://x/1.png"),
        ("external_url", ""),
    ])
}

#[test]
fn trim_removes_surrounding_whitespace_only() {
    assert_eq!(trim_text("  PSA "), "PSA");
    assert_eq!(trim_text("\n Hello\tworld\t\n"), "Hello\tworld");
    assert_eq!(trim_text("\u{3000}a b\u{a0}"), "a b");
    assert_eq!(trim_text(" \t\r\n"), "");
    assert_eq!(trim_text(""), "");
    assert_eq!(trim_text("x"), "x");
    assert_eq!(trim_text("\u{85}\u{2028}x y\u{1680}\u{202f}"), "x y");
    assert_eq!(trim_text("\u{200b}x\u{feff}"), "\u{200b}x\u{feff}");
}

#[test]
fn optional_cell_drops_blank_text() {
    assert_eq!(optional_cell(""), None);
    assert_eq!(optional_cell("   "), None);
    assert_eq!(optional_cell(" a "), Some("a".to_string()));
}

#[test]
fn sword_row_gives_grader_and_year() {
    let doc = transform(&Schema::with_set(), &sword_row());
    assert_eq!(
        doc,
        MetadataDocument::new(
            "Sword #1".to_string(),
            "http://x/1.png".to_string(),
            None,
            None,
            vec![attribute("Grader", "PSA"), attribute("Year", "2021")],
        )
    );
    assert_eq!(doc.name(), "Sword #1");
    assert_eq!(doc.description(), "Sword #1");
    assert_eq!(doc.image(), "http://x/1.png");
    assert_eq!(doc.video(), &None);
    assert_eq!(doc.external_url(), &None);
    assert_eq!(doc.attributes().len(), 2);
}

#[test]
fn blank_attribute_cells_give_no_attributes() {
    let row = record(&[
        ("SERIAL NUMBER", ""),
        ("GRADER", "   "),
        ("TITLE", "Shield"),
        ("YEAR", "\t"),
        ("LANGUAGE", "\u{2003}"),
        ("SET", "\n"),
        ("GRADE", " \r\n "),
        ("video", "v"),
        ("image", "i"),
        ("external_url", "u"),
    ]);
    let doc = transform(&Schema::with_set(), &row);
    assert!(doc.attributes().is_empty());
    assert_eq!(doc.video(), &Some("v".to_string()));
    assert_eq!(doc.external_url(), &Some("u".to_string()));
}

#[test]
fn name_and_description_keep_the_raw_title() {
    let mut row = sword_row();
    row.fields[2].value = "  Sword #1\t".to_string();
    let doc = transform(&Schema::with_set(), &row);
    assert_eq!(doc.name(), "  Sword #1\t");
    assert_eq!(doc.description(), doc.name());
}

#[test]
fn image_is_trimmed_and_kept_even_if_empty() {
    let mut row = sword_row();
    row.fields[8].value = "  http://x/1.png  ".to_string();
    assert_eq!(transform(&Schema::with_set(), &row).image(), "http://x/1.png");
    row.fields[8].value = "   ".to_string();
    assert_eq!(transform(&Schema::with_set(), &row).image(), "");
}

#[test]
fn links_are_trimmed_when_present() {
    let mut row = sword_row();
    row.fields[7].value = " http://x/1.mp4 ".to_string();
    row.fields[9].value = "\thttp://shop/1\n".to_string();
    let doc = transform(&Schema::with_set(), &row);
    assert_eq!(doc.video(), &Some("http://x/1.mp4".to_string()));
    assert_eq!(doc.external_url(), &Some("http://shop/1".to_string()));
}

#[test]
fn all_attributes_come_in_schema_order() {
    let row = record(&[
        ("SET", "Base"),
        ("LANGUAGE", "EN"),
        ("YEAR", "1999"),
        ("GRADE", "10"),
        ("SERIAL NUMBER", "123"),
        ("GRADER", "PSA"),
        ("TITLE", "Card"),
        ("video", ""),
        ("image", ""),
        ("external_url", ""),
    ]);
    let doc = transform(&Schema::with_set(), &row);
    assert_eq!(
        doc.attributes(),
        &vec![
            attribute("Grader", "PSA"),
            attribute("Serial Number", "123"),
            attribute("Grade", "10"),
            attribute("Year", "1999"),
            attribute("Language", "EN"),
            attribute("Set", "Base"),
        ]
    );
}

#[test]
fn column_order_does_not_change_the_document() {
    let mut shuffled = sword_row();
    shuffled.fields.reverse();
    shuffled.fields.swap(1, 4);
    assert_eq!(
        transform(&Schema::with_set(), &shuffled),
        transform(&Schema::with_set(), &sword_row())
    );
}

#[test]
fn second_variant_reads_its_own_columns_and_has_no_set() {
    let row = record(&[
        ("SERIAL NUMBER", "77"),
        ("GRADER", "BGS"),
        ("TITLE", "Helm"),
        ("YEAR", "2020"),
        ("LANGUAGE", "JP"),
        ("SET", "Ignored"),
        ("GRADE", "9.5"),
        ("MP4 URL", " http://x/h.mp4"),
        ("IMAGE URL", "http://x/h.png "),
        ("URL TO PRODUCT", ""),
        ("video", "not read"),
    ]);
    let doc = transform(&Schema::without_set(), &row);
    assert_eq!(doc.image(), "http://x/h.png");
    assert_eq!(doc.video(), &Some("http://x/h.mp4".to_string()));
    assert_eq!(doc.external_url(), &None);
    assert_eq!(
        doc.attributes(),
        &vec![
            attribute("Grader", "BGS"),
            attribute("Serial Number", "77"),
            attribute("Grade", "9.5"),
            attribute("Year", "2020"),
            attribute("Language", "JP"),
        ]
    );
}

#[test]
fn schemas_list_their_columns() {
    assert_eq!(
        Schema::with_set().columns(),
        vec![
            "TITLE",
            "image",
            "video",
            "external_url",
            "GRADER",
            "SERIAL NUMBER",
            "GRADE",
            "YEAR",
            "LANGUAGE",
            "SET"
        ]
    );
    assert_eq!(
        Schema::without_set().columns(),
        vec![
            "TITLE",
            "IMAGE URL",
            "MP4 URL",
            "URL TO PRODUCT",
            "GRADER",
            "SERIAL NUMBER",
            "GRADE",
            "YEAR",
            "LANGUAGE"
        ]
    );
}

#[test]
fn a_custom_schema_decides_labels_and_order() {
    let schema = Schema {
        title_column: "t".to_string(),
        image_column: "i".to_string(),
        video_column: "v".to_string(),
        link_column: "l".to_string(),
        attributes: vec![AttributeBinding::new("b", "Second"), AttributeBinding::new("a", "First")],
    };
    let row = record(&[("a", "1"), ("b", "2"), ("t", "T"), ("i", ""), ("v", ""), ("l", "")]);
    assert_eq!(
        transform(&schema, &row).attributes(),
        &vec![attribute("Second", "2"), attribute("First", "1")]
    );
}

#[test]
fn record_lookup_takes_the_first_field_of_a_name() {
    let row = record(&[("a", "1"), ("b", "2"), ("a", "3")]);
    assert_eq!(row.get(&"a".to_string()), "1");
    assert_eq!(row.get(&"b".to_string()), "2");
    assert_eq!(row.get(&"c".to_string()), "");
}

#[test]
fn record_pairs_headers_with_cells() {
    let header = vec!["x".to_string(), "y".to_string()];
    let cells = vec![" 1".to_string(), "2 ".to_string()];
    assert_eq!(
        RowRecord::from_columns(&header, &cells),
        Some(record(&[("x", " 1"), ("y", "2 ")]))
    );
    assert_eq!(RowRecord::from_columns(&header, &cells[..1].to_vec()), None);
    assert_eq!(RowRecord::from_columns(&Vec::new(), &Vec::new()), Some(record(&[])));
}
