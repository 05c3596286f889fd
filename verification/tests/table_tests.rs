use token_metadata::record::{Field, RowRecord};
use token_metadata::schema::Schema;
use token_metadata::table::{check_header, count_column, decode_row, inspect_header, ParseProblem};

fn strings(items: &[&str]) -> Vec<String> {
    items.iter().map(|s| s.to_string()).collect()
}

fn full_header() -> Vec<String> {
    strings(&[
        "SERIAL NUMBER",
        "GRADER",
        "TITLE",
        "YEAR",
        "LANGUAGE",
        "SET",
        "GRADE",
        "video",
        "image",
        "external_url",
    ])
}

#[test]
fn count_column_counts_exact_names() {
    let header = strings(&["a", "b", "a", "A", "a "]);
    assert_eq!(count_column(&header, &"a".to_string()), 2);
    assert_eq!(count_column(&header, &"b".to_string()), 1);
    assert_eq!(count_column(&header, &"c".to_string()), 0);
}

#[test]
fn a_header_with_every_column_fits() {
    assert_eq!(check_header(&Schema::with_set(), &full_header()), None);
    let mut more = full_header();
    more.push("NOTES".to_string());
    more.push("NOTES".to_string());
    assert_eq!(check_header(&Schema::with_set(), &more), None);
}

#[test]
fn a_missing_column_is_named() {
    let mut header = full_header();
    header.remove(5);
    assert_eq!(
        check_header(&Schema::with_set(), &header),
        Some(ParseProblem::MissingColumn { column: "SET".to_string() })
    );
    assert_eq!(check_header(&Schema::without_set(), &header).is_some(), true);
    assert_eq!(
        check_header(&Schema::without_set(), &header),
        Some(ParseProblem::MissingColumn { column: "IMAGE URL".to_string() })
    );
}

#[test]
fn a_duplicate_column_is_named() {
    let mut header = full_header();
    header.push("YEAR".to_string());
    assert_eq!(
        check_header(&Schema::with_set(), &header),
        Some(ParseProblem::DuplicateColumn { column: "YEAR".to_string() })
    );
}

#[test]
fn the_first_column_in_schema_order_is_reported() {
    let header = strings(&["TITLE", "image", "image", "external_url"]);
    assert_eq!(
        check_header(&Schema::with_set(), &header),
        Some(ParseProblem::DuplicateColumn { column: "image".to_string() })
    );
    let header = strings(&["image", "external_url"]);
    assert_eq!(
        check_header(&Schema::with_set(), &header),
        Some(ParseProblem::MissingColumn { column: "TITLE".to_string() })
    );
}

#[test]
fn an_unreadable_header_is_invalid_text() {
    assert_eq!(inspect_header(&Schema::with_set(), &None), Some(ParseProblem::InvalidText));
    assert_eq!(inspect_header(&Schema::with_set(), &Some(full_header())), None);
}

#[test]
fn rows_are_decoded_under_their_headers() {
    let header = Some(strings(&["a", "b"]));
    let row = Some(strings(&[" 1 ", ""]));
    assert_eq!(
        decode_row(&header, &None, &row),
        Ok(RowRecord {
            fields: vec![
                Field { name: "a".to_string(), value: " 1 ".to_string() },
                Field { name: "b".to_string(), value: "".to_string() },
            ],
        })
    );
}

#[test]
fn row_problems_come_in_a_fixed_order() {
    let header = Some(strings(&["a", "b"]));
    let fault = Some(ParseProblem::MissingColumn { column: "c".to_string() });
    assert_eq!(decode_row(&header, &fault, &None), Err(ParseProblem::InvalidText));
    assert_eq!(
        decode_row(&header, &fault, &Some(strings(&["1"]))),
        Err(ParseProblem::UnequalLengths { expected: 2, found: 1 })
    );
    assert_eq!(
        decode_row(&header, &fault, &Some(strings(&["1", "2", "3"]))),
        Err(ParseProblem::UnequalLengths { expected: 2, found: 3 })
    );
    assert_eq!(
        decode_row(&header, &fault, &Some(strings(&["1", "2"]))),
        Err(ParseProblem::MissingColumn { column: "c".to_string() })
    );
    assert_eq!(
        decode_row(&None, &Some(ParseProblem::InvalidText), &Some(strings(&["1", "2"]))),
        Err(ParseProblem::InvalidText)
    );
}

#[test]
fn problems_are_copied_faithfully() {
    let problems = [
        ParseProblem::InvalidText,
        ParseProblem::UnequalLengths { expected: 3, found: 4 },
        ParseProblem::MissingColumn { column: "a".to_string() },
        ParseProblem::DuplicateColumn { column: "b".to_string() },
    ];
    for problem in problems {
        assert_eq!(problem.duplicate(), problem);
    }
}
