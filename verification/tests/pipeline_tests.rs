use token_metadata::pipeline::{
    file_for, plan_outputs, run, OutputFile, ParseError, PipelineError, Session, Step,
};
use token_metadata::progress::{finished_text, found_text, generated_text, started_text};
use token_metadata::schema::Schema;
use token_metadata::table::ParseProblem;
use token_metadata::writer::RenderError;

const HEADER: &str = "SERIAL NUMBER,GRADER,TITLE,YEAR,LANGUAGE,SET,GRADE,video,image,external_url\n";

const SWORD_TEXT: &str = r#"{
  "name": "Sword #1",
  "description": "Sword #1",
  "image": "http://x/1.png",
  "attributes": [
    {
      "trait_type": "Grader",
      "value": "PSA",
      "display_type": "string"
    },
    {
      "trait_type": "Year",
      "value": "2021",
      "display_type": "string"
    }
  ]
}"#;

fn table(rows: &[&str]) -> Vec<u8> {
    let mut text = String::from(HEADER);
    for row in rows {
        text.push_str(row);
        text.push('\n');
    }
    text.into_bytes()
}

#[test]
fn sword_scenario_end_to_end() {
    let data = table(&[",  PSA ,Sword #1,2021,,,,,http://x/1.png,"]);
    let report = run(&Schema::with_set(), &data);
    assert_eq!(report.total_rows, 1);
    assert_eq!(report.produced, 1);
    assert_eq!(report.failure, None);
    assert_eq!(
        report.files,
        vec![OutputFile { name: "1".to_string(), content: SWORD_TEXT.to_string() }]
    );
}

#[test]
fn n_rows_give_n_files_named_one_to_n() {
    let rows: Vec<String> =
        (1..=12).map(|i| format!("S{},PSA,Item {},2000,EN,Base,9,,http://x/{}.png,", i, i, i)).collect();
    let rows: Vec<&str> = rows.iter().map(|r| r.as_str()).collect();
    let report = run(&Schema::with_set(), &table(&rows));
    assert_eq!(report.total_rows, 12);
    assert_eq!(report.produced, 12);
    assert_eq!(report.failure, None);
    assert_eq!(report.files.len(), 12);
    for (k, file) in report.files.iter().enumerate() {
        assert_eq!(file.name, (k + 1).to_string());
        assert!(file.content.contains(&format!("\"name\": \"Item {}\"", k + 1)));
    }
}

#[test]
fn an_empty_table_gives_nothing() {
    let report = run(&Schema::with_set(), b"");
    assert_eq!(report.total_rows, 0);
    assert_eq!(report.produced, 0);
    assert!(report.files.is_empty());
    assert_eq!(report.failure, None);
}

#[test]
fn a_header_alone_gives_nothing() {
    let report = run(&Schema::with_set(), HEADER.as_bytes());
    assert_eq!(report.total_rows, 0);
    assert!(report.files.is_empty());
    assert_eq!(report.failure, None);
    let report = run(&Schema::with_set(), b"TITLE,image\n");
    assert_eq!(report.total_rows, 0);
    assert_eq!(report.failure, None);
}

#[test]
fn a_short_row_ends_the_run_and_keeps_earlier_files() {
    let data = table(&[
        "1,PSA,First,2001,EN,Base,9,,http://x/1.png,",
        "2,PSA,Second,2002,EN,Base,9,,http://x/2.png,",
        "3,PSA,Third,2003",
        "4,PSA,Fourth,2004,EN,Base,9,,http://x/4.png,",
    ]);
    let report = run(&Schema::with_set(), &data);
    assert_eq!(report.total_rows, 4);
    assert_eq!(report.produced, 2);
    assert_eq!(report.files.len(), 2);
    assert_eq!(report.files[0].name, "1");
    assert_eq!(report.files[1].name, "2");
    assert!(report.files[1].content.contains("\"name\": \"Second\""));
    assert_eq!(
        report.failure,
        Some(PipelineError::Parse(ParseError {
            row: 3,
            problem: ParseProblem::UnequalLengths { expected: 10, found: 4 },
        }))
    );
}

#[test]
fn a_missing_column_fails_the_first_row() {
    let data = b"TITLE,GRADER,YEAR,image,video\nSword,PSA,2021,http://x/1.png,\n".to_vec();
    let report = run(&Schema::with_set(), &data);
    assert_eq!(report.total_rows, 1);
    assert!(report.files.is_empty());
    assert_eq!(
        report.failure,
        Some(PipelineError::Parse(ParseError {
            row: 1,
            problem: ParseProblem::MissingColumn { column: "external_url".to_string() },
        }))
    );
}

#[test]
fn a_duplicate_column_fails_the_first_row() {
    let mut text = String::from("TITLE,");
    text.push_str(HEADER);
    text.push_str("x,1,PSA,First,2001,EN,Base,9,,http://x/1.png,\n");
    let report = run(&Schema::with_set(), text.as_bytes());
    assert!(report.files.is_empty());
    assert_eq!(
        report.failure,
        Some(PipelineError::Parse(ParseError {
            row: 1,
            problem: ParseProblem::DuplicateColumn { column: "TITLE".to_string() },
        }))
    );
}

#[test]
fn a_row_that_is_no_text_fails() {
    let mut data = table(&["1,PSA,First,2001,EN,Base,9,,http://x/1.png,"]);
    data.extend_from_slice(b"2,PSA,Sec\xffond,2002,EN,Base,9,,http://x/2.png,\n");
    let report = run(&Schema::with_set(), &data);
    assert_eq!(report.total_rows, 2);
    assert_eq!(report.files.len(), 1);
    assert_eq!(
        report.failure,
        Some(PipelineError::Parse(ParseError { row: 2, problem: ParseProblem::InvalidText }))
    );
}

#[test]
fn quoted_cells_are_read_whole() {
    let data = table(&["1,\" PSA, Inc. \",\"The \"\"Big\"\" Sword\nof Doom\",2021,,,,,http://x/1.png,"]);
    let report = run(&Schema::with_set(), &data);
    assert_eq!(report.failure, None);
    assert_eq!(report.files.len(), 1);
    let value: serde_json::Value = serde_json::from_str(&report.files[0].content).unwrap();
    assert_eq!(value["name"], "The \"Big\" Sword\nof Doom");
    assert_eq!(value["attributes"][0]["value"], "PSA, Inc.");
}

#[test]
fn unknown_columns_are_ignored_and_order_is_free() {
    let straight = table(&["7,PSA,Sword,2021,EN,Base,9,v,i,u"]);
    let shuffled = b"NOTES,external_url,image,video,GRADE,SET,LANGUAGE,YEAR,TITLE,GRADER,SERIAL NUMBER\nskip,u,i,v,9,Base,EN,2021,Sword,PSA,7\n";
    let first = run(&Schema::with_set(), &straight);
    let second = run(&Schema::with_set(), shuffled);
    assert_eq!(first.failure, None);
    assert_eq!(first.files, second.files);
}

#[test]
fn the_second_variant_runs_on_its_own_columns() {
    let data = b"TITLE,GRADER,SERIAL NUMBER,GRADE,YEAR,LANGUAGE,MP4 URL,IMAGE URL,URL TO PRODUCT\nHelm,BGS,,9.5,,,,http://x/h.png,http://shop/h\n";
    let report = run(&Schema::without_set(), data);
    assert_eq!(report.failure, None);
    assert_eq!(
        report.files[0].content,
        "{\n  \"name\": \"Helm\",\n  \"description\": \"Helm\",\n  \"image\": \"http://x/h.png\",\n  \"external_url\": \"http://shop/h\",\n  \"attributes\": [\n    {\n      \"trait_type\": \"Grader\",\n      \"value\": \"BGS\",\n      \"display_type\": \"string\"\n    },\n    {\n      \"trait_type\": \"Grade\",\n      \"value\": \"9.5\",\n      \"display_type\": \"string\"\n    }\n  ]\n}"
    );
}

#[test]
fn planning_takes_records_as_they_were_read() {
    let header: Vec<String> = HEADER.trim().split(',').map(|s| s.to_string()).collect();
    let row: Vec<String> =
        ",  PSA ,Sword #1,2021,,,,,http://x/1.png,".split(',').map(|s| s.to_string()).collect();
    let records = vec![Some(header), Some(row.clone()), None, Some(row)];
    let report = plan_outputs(&Schema::with_set(), records);
    assert_eq!(report.total_rows, 3);
    assert_eq!(report.produced, 1);
    assert_eq!(report.files[0].content, SWORD_TEXT);
    assert_eq!(
        report.failure,
        Some(PipelineError::Parse(ParseError { row: 2, problem: ParseProblem::InvalidText }))
    );
    let report = plan_outputs(&Schema::with_set(), Vec::new());
    assert_eq!(report.total_rows, 0);
    assert_eq!(report.failure, None);
}

#[test]
fn a_text_that_was_not_written_fails_its_row() {
    assert_eq!(
        file_for(5, "5".to_string(), Ok("{}".to_string())),
        Ok(OutputFile { name: "5".to_string(), content: "{}".to_string() })
    );
    assert_eq!(
        file_for(5, "5".to_string(), Err(RenderError::Rejected)),
        Err(PipelineError::Render { row: 5 })
    );
}

#[test]
fn a_long_row_ends_the_run() {
    let data = table(&["1,PSA,First,2001,EN,Base,9,,http://x/1.png,,extra"]);
    let report = run(&Schema::with_set(), &data);
    assert!(report.files.is_empty());
    assert_eq!(report.produced, 0);
    assert_eq!(
        report.failure,
        Some(PipelineError::Parse(ParseError {
            row: 1,
            problem: ParseProblem::UnequalLengths { expected: 10, found: 11 },
        }))
    );
}

#[test]
fn a_header_that_is_no_text_fails_the_first_row() {
    let mut data = b"TITLE,ima\xffge\n".to_vec();
    data.extend_from_slice(b"Sword,http://x/1.png\n");
    let report = run(&Schema::with_set(), &data);
    assert_eq!(report.total_rows, 1);
    assert!(report.files.is_empty());
    assert_eq!(
        report.failure,
        Some(PipelineError::Parse(ParseError { row: 1, problem: ParseProblem::InvalidText }))
    );
}

#[test]
fn line_ends_and_empty_lines_do_not_count_as_rows() {
    let text = format!(
        "{}\r\n\r\n{}\r\n\n{}",
        HEADER.trim_end(),
        "1,PSA,First,2001,EN,Base,9,,http://x/1.png,",
        "2,PSA,Second,2002,EN,Base,9,,http://x/2.png,"
    );
    let report = run(&Schema::with_set(), text.as_bytes());
    assert_eq!(report.total_rows, 2);
    assert_eq!(report.produced, 2);
    assert_eq!(report.failure, None);
    assert_eq!(report.files[1].name, "2");
}

#[test]
fn cells_are_not_trimmed_before_the_title_is_taken() {
    let data = table(&["1, PSA ,  Sword  ,2001,EN,Base,9, , http://x/1.png ,"]);
    let report = run(&Schema::with_set(), &data);
    assert_eq!(report.failure, None);
    let value: serde_json::Value = serde_json::from_str(&report.files[0].content).unwrap();
    assert_eq!(value["name"], "  Sword  ");
    assert_eq!(value["description"], "  Sword  ");
    assert_eq!(value["image"], "http://x/1.png");
    assert_eq!(value.get("video"), None);
    assert_eq!(value["attributes"][0]["value"], "PSA");
}

#[test]
fn a_session_asks_for_one_file_after_another() {
    let schema = Schema::with_set();
    let data = table(&[
        "1,PSA,First,2001,EN,Base,9,,http://x/1.png,",
        "2,PSA,Second,2002,EN,Base,9,,http://x/2.png,",
    ]);
    let session = Session::open(&schema, &data);
    assert_eq!(session.total_rows(), 2);
    assert_eq!(session.produced(), 0);
    let session = match session.next_step() {
        Step::Store { file, pending } => {
            assert_eq!(file.name, "1");
            assert!(file.content.contains("\"name\": \"First\""));
            pending.stored()
        }
        Step::Finish(_) => panic!("the first row gives a file"),
    };
    assert_eq!(session.produced(), 1);
    let session = match session.next_step() {
        Step::Store { file, pending } => {
            assert_eq!(file.name, "2");
            assert!(file.content.contains("\"name\": \"Second\""));
            pending.stored()
        }
        Step::Finish(_) => panic!("the second row gives a file"),
    };
    assert_eq!(session.produced(), 2);
    assert_eq!(session.total_rows(), 2);
    match session.next_step() {
        Step::Finish(Ok(produced)) => assert_eq!(produced, 2),
        _ => panic!("the run is over"),
    }
}

#[test]
fn a_session_ends_at_the_first_row_that_fails() {
    let schema = Schema::with_set();
    let data = table(&[
        "1,PSA,First,2001,EN,Base,9,,http://x/1.png,",
        "2,PSA,Second",
        "3,PSA,Third,2003,EN,Base,9,,http://x/3.png,",
    ]);
    let session = match Session::open(&schema, &data).next_step() {
        Step::Store { file, pending } => {
            assert_eq!(file.name, "1");
            pending.stored()
        }
        Step::Finish(_) => panic!("the first row gives a file"),
    };
    match session.next_step() {
        Step::Finish(Err(e)) => assert_eq!(
            e,
            PipelineError::Parse(ParseError {
                row: 2,
                problem: ParseProblem::UnequalLengths { expected: 10, found: 3 },
            })
        ),
        _ => panic!("the second row fails"),
    }
}

#[test]
fn a_file_that_cannot_be_stored_ends_the_run() {
    let schema = Schema::with_set();
    let data = table(&[
        "1,PSA,First,2001,EN,Base,9,,http://x/1.png,",
        "2,PSA,Second,2002,EN,Base,9,,http://x/2.png,",
    ]);
    let session = match Session::open(&schema, &data).next_step() {
        Step::Store { pending, .. } => pending.stored(),
        Step::Finish(_) => panic!("the first row gives a file"),
    };
    match session.next_step() {
        Step::Store { file, pending } => {
            assert_eq!(file.name, "2");
            assert_eq!(
                pending.failed("disk full"),
                PipelineError::Io { path: "2".to_string(), detail: "disk full".to_string() }
            );
        }
        Step::Finish(_) => panic!("the second row gives a file"),
    }
}

#[test]
fn a_session_over_nothing_ends_at_once() {
    let schema = Schema::without_set();
    let session = Session::from_records(&schema, Vec::new());
    assert_eq!(session.total_rows(), 0);
    match session.next_step() {
        Step::Finish(Ok(produced)) => assert_eq!(produced, 0),
        _ => panic!("nothing is due"),
    }
    let session = Session::from_records(&schema, vec![None]);
    assert_eq!(session.total_rows(), 0);
    match session.next_step() {
        Step::Finish(Ok(produced)) => assert_eq!(produced, 0),
        _ => panic!("nothing is due"),
    }
}

#[test]
fn errors_read_as_messages() {
    assert_eq!(
        PipelineError::io("final.csv", "not found").message(),
        "I/O error on `final.csv`: not found"
    );
    assert_eq!(
        PipelineError::io("final.csv", "not found"),
        PipelineError::Io { path: "final.csv".to_string(), detail: "not found".to_string() }
    );
    assert_eq!(
        PipelineError::Parse(ParseError { row: 12, problem: ParseProblem::InvalidText }).message(),
        "parse error in row 12: the row or the header row is not valid UTF-8"
    );
    assert_eq!(
        PipelineError::Parse(ParseError {
            row: 3,
            problem: ParseProblem::UnequalLengths { expected: 10, found: 4 },
        })
        .message(),
        "parse error in row 3: found 4 cells where the header row has 10"
    );
    assert_eq!(
        PipelineError::Parse(ParseError {
            row: 1,
            problem: ParseProblem::MissingColumn { column: "SET".to_string() },
        })
        .message(),
        "parse error in row 1: the header row has no column `SET`"
    );
    assert_eq!(
        PipelineError::Parse(ParseError {
            row: 1,
            problem: ParseProblem::DuplicateColumn { column: "YEAR".to_string() },
        })
        .message(),
        "parse error in row 1: the header row has the column `YEAR` more than once"
    );
    assert_eq!(
        PipelineError::Render { row: 7 }.message(),
        "the document of row 7 could not be written as JSON"
    );
    assert_eq!(
        ParseProblem::MissingColumn { column: "image".to_string() }.message(),
        "the header row has no column `image`"
    );
}

#[test]
fn progress_lines_carry_the_counts_and_names() {
    assert_eq!(started_text(), "Starting CSV parsing and metadata generation...");
    assert_eq!(found_text(0), "Found 0 records in CSV file");
    assert_eq!(found_text(120), "Found 120 records in CSV file");
    assert_eq!(generated_text("17"), "Generated metadata file: 17");
    assert_eq!(finished_text(120), "Successfully generated 120 metadata files!");
}
