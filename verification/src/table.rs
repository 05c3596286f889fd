//! The table reader: records read from delimited text, and the binding of a
//! row's cells to the columns that a schema names.

use crate::counter::{decimal, decimal_text};
use crate::record::{paired, RowRecord};
use crate::schema::{Schema, SchemaView};
use vstd::prelude::*;
use vstd::string::*;

verus! {

/// The records that the `csv` crate reads from `data`, the header row first:
/// comma-separated, quoted with `"`, rows of any length accepted. A record
/// that is not valid UTF-8 is `None`; every other one is its fields as text.
pub uninterp spec fn csv_records(data: Seq<u8>) -> Seq<Option<Seq<Seq<char>>>>;

/// Reads all records of `data` with a `csv::Reader` built by
/// `csv::ReaderBuilder` with `has_headers(false)`, so that the header row
/// comes out as the first record, and `flexible(true)`, so that the reader
/// does not compare lengths. Each record that the reader hands out is copied
/// field by field; each error that it reports for a record becomes `None`.
/// What comes out depends on the bytes alone; the contract gives it its name.
#[verifier::external_body]
pub(crate) fn read_records(data: &[u8]) -> (records: Vec<Option<Vec<String>>>)
    ensures
        records.deep_view() == csv_records(data@),
{
    let mut reader =
        csv::ReaderBuilder::new().has_headers(false).flexible(true).from_reader(data);
    reader.records().map(|r| r.ok().map(|rec| rec.iter().map(str::to_owned).collect())).collect()
}

/// What is wrong with a row.
#[derive(Clone, Debug, PartialEq, Eq)]
pub enum ParseProblem {
    /// The row, or the header row, is not valid text.
    InvalidText,
    /// The row has more or fewer cells than the header row.
    UnequalLengths { expected: usize, found: usize },
    /// The header row lacks a column that the schema reads.
    MissingColumn { column: String },
    /// The header row has a column that the schema reads more than once.
    DuplicateColumn { column: String },
}

/// The model of a [`ParseProblem`].
pub enum ProblemView {
    InvalidText,
    UnequalLengths { expected: nat, found: nat },
    MissingColumn { column: Seq<char> },
    DuplicateColumn { column: Seq<char> },
}

impl View for ParseProblem {
    type V = ProblemView;

    open spec fn view(&self) -> ProblemView {
        match self {
            ParseProblem::InvalidText => ProblemView::InvalidText,
            ParseProblem::UnequalLengths { expected, found } => ProblemView::UnequalLengths {
                expected: *expected as nat,
                found: *found as nat,
            },
            ParseProblem::MissingColumn { column } => ProblemView::MissingColumn {
                column: column@,
            },
            ParseProblem::DuplicateColumn { column } => ProblemView::DuplicateColumn {
                column: column@,
            },
        }
    }
}

/// The model of an optional problem.
pub open spec fn optional_problem(problem: Option<ParseProblem>) -> Option<ProblemView> {
    match problem {
        Some(p) => Some(p@),
        None => None,
    }
}

/// How often `name` occurs among `names`.
pub open spec fn occurrences(names: Seq<Seq<char>>, name: Seq<char>) -> nat
    decreases names.len(),
{
    if names.len() == 0 {
        0
    } else {
        occurrences(names.drop_last(), name) + if names.last() == name {
            1nat
        } else {
            0nat
        }
    }
}

/// What is wrong with a header row as far as one column goes: the column
/// must occur exactly once.
pub open spec fn column_problem(header: Seq<Seq<char>>, column: Seq<char>) -> Option<ProblemView> {
    if occurrences(header, column) == 0 {
        Some(ProblemView::MissingColumn { column })
    } else if occurrences(header, column) > 1 {
        Some(ProblemView::DuplicateColumn { column })
    } else {
        None
    }
}

/// The problem of the first of `columns` that the header row does not hold
/// exactly once; `None` where it holds each of them exactly once.
pub open spec fn header_problem(columns: Seq<Seq<char>>, header: Seq<Seq<char>>) -> Option<
    ProblemView,
>
    decreases columns.len(),
{
    if columns.len() == 0 {
        None
    } else {
        match column_problem(header, columns.first()) {
            Some(p) => Some(p),
            None => header_problem(columns.drop_first(), header),
        }
    }
}

/// What is wrong with the header row of a table under a schema, if anything.
pub open spec fn header_fault(schema: SchemaView, header: Option<Seq<Seq<char>>>) -> Option<
    ProblemView,
> {
    match header {
        Some(h) => header_problem(schema.columns(), h),
        None => Some(ProblemView::InvalidText),
    }
}

/// The record of a row under a header row with the given fault, or what is
/// wrong with the row. A row that cannot be read comes first, then one of
/// another length than the header row, then the fault of the header row.
pub open spec fn row_outcome(
    header: Option<Seq<Seq<char>>>,
    fault: Option<ProblemView>,
    row: Option<Seq<Seq<char>>>,
) -> Result<Seq<(Seq<char>, Seq<char>)>, ProblemView> {
    match (header, row) {
        (Some(h), Some(r)) => {
            if r.len() != h.len() {
                Err(ProblemView::UnequalLengths { expected: h.len(), found: r.len() })
            } else {
                match fault {
                    Some(p) => Err(p),
                    None => Ok(paired(h, r)),
                }
            }
        },
        _ => Err(ProblemView::InvalidText),
    }
}

/// Counts the columns of the header row that are called `name`.
pub fn count_column(header: &Vec<String>, name: &String) -> (n: usize)
    ensures
        n == occurrences(header.deep_view(), name@),
{
    let ghost names = header.deep_view();
    let mut n: usize = 0;
    let mut i: usize = 0;
    while i < header.len()
        invariant
            i <= header.len(),
            names == header.deep_view(),
            n <= i,
            n == occurrences(names.take(i as int), name@),
        decreases header.len() - i,
    {
        assert(names.take(i + 1).drop_last() =~= names.take(i as int));
        assert(names.take(i + 1).last() == header[i as int]@);
        if header[i] == *name {
            n += 1;
        }
        i += 1;
    }
    assert(names.take(i as int) =~= names);
    n
}

/// Holds a header row against the schema: every column that the schema
/// reads must be there exactly once. Other columns are ignored.
pub fn check_header(schema: &Schema, header: &Vec<String>) -> (problem: Option<ParseProblem>)
    ensures
        optional_problem(problem) == header_problem(schema@.columns(), header.deep_view()),
{
    let columns = schema.columns();
    let ghost all = schema@.columns();
    let mut i: usize = 0;
    assert(all.skip(0) =~= all);
    while i < columns.len()
        invariant
            i <= columns.len(),
            all == schema@.columns(),
            columns.deep_view() == all,
            header_problem(all, header.deep_view()) == header_problem(
                all.skip(i as int),
                header.deep_view(),
            ),
        decreases columns.len() - i,
    {
        assert(all.skip(i as int).first() == columns[i as int]@);
        assert(all.skip(i as int).drop_first() =~= all.skip(i + 1));
        let n = count_column(header, &columns[i]);
        if n == 0 {
            return Some(ParseProblem::MissingColumn { column: columns[i].clone() });
        }
        if n > 1 {
            return Some(ParseProblem::DuplicateColumn { column: columns[i].clone() });
        }
        i += 1;
    }
    None
}

/// Finds the fault of the header row of a table, once for all its rows.
pub fn inspect_header(schema: &Schema, header: &Option<Vec<String>>) -> (fault: Option<
    ParseProblem,
>)
    ensures
        optional_problem(fault) == header_fault(schema@, header.deep_view()),
{
    match header {
        Some(h) => check_header(schema, h),
        None => Some(ParseProblem::InvalidText),
    }
}

/// The model of a decoded row.
pub open spec fn decoded_view(r: Result<RowRecord, ParseProblem>) -> Result<
    Seq<(Seq<char>, Seq<char>)>,
    ProblemView,
> {
    match r {
        Ok(record) => Ok(record@),
        Err(p) => Err(p@),
    }
}

/// What a problem reads like in a message.
pub open spec fn problem_message(problem: ProblemView) -> Seq<char> {
    match problem {
        ProblemView::InvalidText => "the row or the header row is not valid UTF-8"@,
        ProblemView::UnequalLengths { expected, found } => "found "@ + decimal(found)
            + " cells where the header row has "@ + decimal(expected),
        ProblemView::MissingColumn { column } => "the header row has no column `"@ + column
            + "`"@,
        ProblemView::DuplicateColumn { column } => "the header row has the column `"@ + column
            + "` more than once"@,
    }
}

impl ParseProblem {
    /// The problem in words, with the column or the counts that it is about.
    pub fn message(&self) -> (text: String)
        ensures
            text@ == problem_message(self@),
    {
        match self {
            ParseProblem::InvalidText => "the row or the header row is not valid UTF-8".to_owned(),
            ParseProblem::UnequalLengths { expected, found } => {
                let mut text = "found ".to_owned();
                text.append(decimal_text(*found).as_str());
                text.append(" cells where the header row has ");
                text.append(decimal_text(*expected).as_str());
                text
            },
            ParseProblem::MissingColumn { column } => {
                let mut text = "the header row has no column `".to_owned();
                text.append(column.as_str());
                text.append("`");
                text
            },
            ParseProblem::DuplicateColumn { column } => {
                let mut text = "the header row has the column `".to_owned();
                text.append(column.as_str());
                text.append("` more than once");
                text
            },
        }
    }

    /// A copy of the problem.
    pub fn duplicate(&self) -> (copy: ParseProblem)
        ensures
            copy@ == self@,
    {
        match self {
            ParseProblem::InvalidText => ParseProblem::InvalidText,
            ParseProblem::UnequalLengths { expected, found } => ParseProblem::UnequalLengths {
                expected: *expected,
                found: *found,
            },
            ParseProblem::MissingColumn { column } => ParseProblem::MissingColumn {
                column: column.clone(),
            },
            ParseProblem::DuplicateColumn { column } => ParseProblem::DuplicateColumn {
                column: column.clone(),
            },
        }
    }
}

/// Decodes one row. `fault` is what [`inspect_header`] found of the header
/// row.
pub fn decode_row(
    header: &Option<Vec<String>>,
    fault: &Option<ParseProblem>,
    row: &Option<Vec<String>>,
) -> (r: Result<RowRecord, ParseProblem>)
    ensures
        decoded_view(r) == row_outcome(
            header.deep_view(),
            optional_problem(*fault),
            row.deep_view(),
        ),
{
    match (header, row) {
        (Some(h), Some(cells)) => match RowRecord::from_columns(h, cells) {
            None => Err(ParseProblem::UnequalLengths { expected: h.len(), found: cells.len() }),
            Some(record) => match fault {
                Some(p) => Err(p.duplicate()),
                None => Ok(record),
            },
        },
        _ => Err(ParseProblem::InvalidText),
    }
}

} // verus!
