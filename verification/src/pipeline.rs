//! The pipeline: from the records of a table to the files of a run.
//!
//! The library decides; the caller reads the table and stores the files. A
//! [`Session`] says at each point what is due: store the file of the next
//! row, or finish. Rows are taken in file order, the first row that fails
//! ends the run, and so does the first file that cannot be stored. Nothing is
//! undone: the files stored before stay where they are.
//!
//! [`run`] gives the files of a whole run at once, for a caller who stores
//! them afterwards.

use crate::counter::{decimal, decimal_text, SequentialCounter};
use crate::document::{document_of, transform};
use crate::json::json_pretty;
use crate::schema::{Schema, SchemaView};
use crate::table::{
    csv_records, decode_row, header_fault, inspect_header, optional_problem, problem_message,
    read_records, row_outcome, ParseProblem, ProblemView,
};
use crate::writer::{document_tree, render, RenderError};
use vstd::prelude::*;
use vstd::string::*;

verus! {

/// A row that could not be decoded: its position among the data rows,
/// counted from 1, and what is wrong with it.
#[derive(Clone, Debug, PartialEq, Eq)]
pub struct ParseError {
    pub row: usize,
    pub problem: ParseProblem,
}

/// Why a run ended early.
#[derive(Clone, Debug, PartialEq, Eq)]
pub enum PipelineError {
    /// The table could not be read or a file could not be stored. The
    /// library raises this only when its caller reports such a failure.
    Io { path: String, detail: String },
    /// A row does not fit the schema.
    Parse(ParseError),
    /// The document of a row could not be written as text.
    Render { row: usize },
}

/// The model of a [`PipelineError`].
pub enum ErrorView {
    Io { path: Seq<char>, detail: Seq<char> },
    Parse { row: nat, problem: ProblemView },
    Render { row: nat },
}

impl View for PipelineError {
    type V = ErrorView;

    open spec fn view(&self) -> ErrorView {
        match self {
            PipelineError::Io { path, detail } => ErrorView::Io { path: path@, detail: detail@ },
            PipelineError::Parse(e) => ErrorView::Parse { row: e.row as nat, problem: e.problem@ },
            PipelineError::Render { row } => ErrorView::Render { row: *row as nat },
        }
    }
}

/// What an error reads like in a message: an I/O error names the path, the
/// others name the row.
pub open spec fn error_message(error: ErrorView) -> Seq<char> {
    match error {
        ErrorView::Io { path, detail } => "I/O error on `"@ + path + "`: "@ + detail,
        ErrorView::Parse { row, problem } => "parse error in row "@ + decimal(row) + ": "@
            + problem_message(problem),
        ErrorView::Render { row } => "the document of row "@ + decimal(row)
            + " could not be written as JSON"@,
    }
}

impl PipelineError {
    /// The error of a file that could not be read or stored.
    pub fn io(path: &str, detail: &str) -> (error: PipelineError)
        ensures
            error@ == (ErrorView::Io { path: path@, detail: detail@ }),
    {
        PipelineError::Io { path: path.to_owned(), detail: detail.to_owned() }
    }

    /// The error in words.
    pub fn message(&self) -> (text: String)
        ensures
            text@ == error_message(self@),
    {
        match self {
            PipelineError::Io { path, detail } => {
                let mut text = "I/O error on `".to_owned();
                text.append(path.as_str());
                text.append("`: ");
                text.append(detail.as_str());
                text
            },
            PipelineError::Parse(e) => {
                let mut text = "parse error in row ".to_owned();
                text.append(decimal_text(e.row).as_str());
                text.append(": ");
                text.append(e.problem.message().as_str());
                text
            },
            PipelineError::Render { row } => {
                let mut text = "the document of row ".to_owned();
                text.append(decimal_text(*row).as_str());
                text.append(" could not be written as JSON");
                text
            },
        }
    }
}

/// One file of a run: its name and what it holds.
#[derive(Clone, Debug, PartialEq, Eq)]
pub struct OutputFile {
    pub name: String,
    pub content: String,
}

/// The model of an [`OutputFile`].
pub struct OutputView {
    pub name: Seq<char>,
    pub content: Seq<char>,
}

impl View for OutputFile {
    type V = OutputView;

    open spec fn view(&self) -> OutputView {
        OutputView { name: self.name@, content: self.content@ }
    }
}

/// The number of data rows among the records of a table: all but the header
/// row.
pub open spec fn data_rows(records: Seq<Option<Seq<Seq<char>>>>) -> nat {
    if records.len() == 0 {
        0
    } else {
        (records.len() - 1) as nat
    }
}

/// The file of the row at `position`, or the failure of that row: the row is
/// decoded, transformed and written as text, and its file is named by its
/// position.
pub open spec fn output_of(
    schema: SchemaView,
    header: Option<Seq<Seq<char>>>,
    fault: Option<ProblemView>,
    row: Option<Seq<Seq<char>>>,
    position: nat,
) -> Result<OutputView, ErrorView> {
    match row_outcome(header, fault, row) {
        Err(problem) => Err(ErrorView::Parse { row: position, problem }),
        Ok(record) => match json_pretty(document_tree(document_of(schema, record))) {
            Some(text) => Ok(OutputView { name: decimal(position), content: text }),
            None => Err(ErrorView::Render { row: position }),
        },
    }
}

/// The file or the failure of the data row at `position` of a table, the
/// first data row being at position 1.
pub open spec fn row_output(
    schema: SchemaView,
    records: Seq<Option<Seq<Seq<char>>>>,
    position: int,
) -> Result<OutputView, ErrorView>
    recommends
        1 <= position < records.len(),
{
    output_of(
        schema,
        records[0],
        header_fault(schema, records[0]),
        records[position],
        position as nat,
    )
}

/// The model of a row's file or failure.
pub open spec fn outcome_view(r: Result<OutputFile, PipelineError>) -> Result<
    OutputView,
    ErrorView,
> {
    match r {
        Ok(file) => Ok(file@),
        Err(e) => Err(e@),
    }
}

/// The file for a document that was written as text, or the failure of the
/// row where it was not.
pub fn file_for(position: usize, name: String, text: Result<String, RenderError>) -> (r: Result<
    OutputFile,
    PipelineError,
>)
    ensures
        text matches Ok(content) ==> r == Ok::<OutputFile, PipelineError>(
            OutputFile { name, content },
        ),
        text is Err ==> r == Err::<OutputFile, PipelineError>(
            PipelineError::Render { row: position },
        ),
{
    match text {
        Ok(content) => Ok(OutputFile { name, content }),
        Err(_) => Err(PipelineError::Render { row: position }),
    }
}

/// Processes one data row: decodes it, transforms it, writes the document as
/// text and names the file by the counter.
pub fn process_row(
    schema: &Schema,
    header: &Option<Vec<String>>,
    fault: &Option<ParseProblem>,
    row: &Option<Vec<String>>,
    counter: &SequentialCounter,
) -> (r: Result<OutputFile, PipelineError>)
    ensures
        outcome_view(r) == output_of(
            schema@,
            header.deep_view(),
            optional_problem(*fault),
            row.deep_view(),
            counter@,
        ),
{
    match decode_row(header, fault, row) {
        Err(problem) => Err(PipelineError::Parse(ParseError { row: counter.current(), problem })),
        Ok(record) => {
            let doc = transform(schema, &record);
            file_for(counter.current(), counter.file_name(), render(&doc))
        },
    }
}

/// A run in progress: the table, the schema and the position of the next
/// row. The position starts at 1 and moves on by one with each file stored.
pub struct Session<'a> {
    schema: &'a Schema,
    records: Vec<Option<Vec<String>>>,
    fault: Option<ParseProblem>,
    counter: SequentialCounter,
}

/// The model of a [`Session`].
pub struct SessionView {
    pub schema: SchemaView,
    pub records: Seq<Option<Seq<Seq<char>>>>,
    pub position: nat,
}

impl SessionView {
    /// The position of a session is that of a data row of its table, or one
    /// more when no row is left.
    pub open spec fn well_formed(self) -> bool {
        1 <= self.position <= data_rows(self.records) + 1
    }

    /// The session as it is when the file of the next row has been stored.
    pub open spec fn moved_on(self) -> SessionView {
        SessionView { position: self.position + 1, ..self }
    }
}

/// A file that is due to be stored, and the session that waits for it.
pub struct PendingStore<'a> {
    session: Session<'a>,
}

/// What the caller of a run does next.
pub enum Step<'a> {
    /// Store the file, then tell `pending` how it went.
    Store { file: OutputFile, pending: PendingStore<'a> },
    /// The run is over: every row gave a file, and this is their number, or
    /// a row failed.
    Finish(Result<usize, PipelineError>),
}

/// The model of a [`Step`].
pub enum StepView {
    Store { file: OutputView, pending: SessionView },
    Finish(Result<nat, ErrorView>),
}

/// What is due in a session: the file of the row at its position, or the end
/// of the run where that row fails or no row is left.
pub open spec fn next_step_of(session: SessionView) -> StepView {
    if session.position <= data_rows(session.records) {
        match row_output(session.schema, session.records, session.position as int) {
            Ok(file) => StepView::Store { file, pending: session },
            Err(e) => StepView::Finish(Err(e)),
        }
    } else {
        StepView::Finish(Ok((session.position - 1) as nat))
    }
}

impl<'a> View for Session<'a> {
    type V = SessionView;

    closed spec fn view(&self) -> SessionView {
        SessionView {
            schema: self.schema@,
            records: self.records.deep_view(),
            position: self.counter@,
        }
    }
}

impl<'a> View for PendingStore<'a> {
    type V = SessionView;

    closed spec fn view(&self) -> SessionView {
        self.session@
    }
}

impl<'a> View for Step<'a> {
    type V = StepView;

    open spec fn view(&self) -> StepView {
        match self {
            Step::Store { file, pending } => StepView::Store { file: file@, pending: pending@ },
            Step::Finish(Ok(produced)) => StepView::Finish(Ok(*produced as nat)),
            Step::Finish(Err(e)) => StepView::Finish(Err(e@)),
        }
    }
}

impl<'a> Session<'a> {
    #[verifier::type_invariant]
    spec fn consistent(self) -> bool {
        &&& 1 <= self.counter@ <= data_rows(self.records.deep_view()) + 1
        &&& self.records.len() > 0 ==> optional_problem(self.fault) == header_fault(
            self.schema@,
            self.records[0].deep_view(),
        )
    }

    /// A session at the start of a run over the records of a table, the
    /// header row first.
    pub fn from_records(schema: &'a Schema, records: Vec<Option<Vec<String>>>) -> (session:
        Session<'a>)
        ensures
            session@ == (SessionView {
                schema: schema@,
                records: records.deep_view(),
                position: 1,
            }),
    {
        let fault = if records.len() > 0 {
            inspect_header(schema, &records[0])
        } else {
            None
        };
        Session { schema, records, fault, counter: SequentialCounter::new() }
    }

    /// A session at the start of a run over the bytes of a table: over the
    /// records that are read from them.
    pub fn open(schema: &'a Schema, data: &[u8]) -> (session: Session<'a>)
        ensures
            session@ == (SessionView {
                schema: schema@,
                records: csv_records(data@),
                position: 1,
            }),
    {
        Session::from_records(schema, read_records(data))
    }

    /// The number of data rows of the table.
    pub fn total_rows(&self) -> (total: usize)
        ensures
            total == data_rows(self@.records),
    {
        if self.records.len() == 0 {
            0
        } else {
            self.records.len() - 1
        }
    }

    /// The number of files stored so far.
    pub fn produced(&self) -> (produced: usize)
        ensures
            produced == self@.position - 1,
            self@.well_formed(),
    {
        proof {
            use_type_invariant(self);
        }
        self.counter.produced()
    }

    /// What is due next. A row that fails ends the run here and now: the
    /// session is used up, and no later row is looked at.
    pub fn next_step(self) -> (step: Step<'a>)
        ensures
            step@ == next_step_of(self@),
            self@.well_formed(),
    {
        proof {
            use_type_invariant(&self);
        }
        let position = self.counter.current();
        if position < self.records.len() {
            assert(self.records.deep_view()[0] == self.records[0].deep_view());
            assert(self.records.deep_view()[position as int]
                == self.records[position as int].deep_view());
            match process_row(
                self.schema,
                &self.records[0],
                &self.fault,
                &self.records[position],
                &self.counter,
            ) {
                Ok(file) => Step::Store { file, pending: PendingStore { session: self } },
                Err(e) => Step::Finish(Err(e)),
            }
        } else {
            Step::Finish(Ok(self.counter.produced()))
        }
    }
}

impl<'a> PendingStore<'a> {
    #[verifier::type_invariant]
    spec fn row_is_due(self) -> bool {
        self.session@.position <= data_rows(self.session@.records)
    }

    /// The file was stored: the session moves on to the next row.
    pub fn stored(self) -> (session: Session<'a>)
        ensures
            session@ == self@.moved_on(),
    {
        proof {
            use_type_invariant(&self);
            use_type_invariant(&self.session);
        }
        let Session { schema, records, fault, counter } = self.session;
        let mut counter = counter;
        assert(counter@ <= data_rows(records.deep_view()));
        assert(records.deep_view().len() == records.len());
        let advanced = counter.advance();
        assert(advanced);
        Session { schema, records, fault, counter }
    }

    /// The file could not be stored: the run ends with an I/O error on the
    /// file's name.
    pub fn failed(self, detail: &str) -> (error: PipelineError)
        ensures
            error@ == (ErrorView::Io { path: decimal(self@.position), detail: detail@ }),
    {
        PipelineError::Io { path: self.session.counter.file_name(), detail: detail.to_owned() }
    }
}

/// What a run over a table produces when every file can be stored.
#[derive(Clone, Debug, PartialEq, Eq)]
pub struct PipelineReport {
    /// The number of data rows of the table.
    pub total_rows: usize,
    /// The files of the rows before the first failure, in row order.
    pub files: Vec<OutputFile>,
    /// The number of files produced.
    pub produced: usize,
    /// The failure that ended the run, if one did.
    pub failure: Option<PipelineError>,
}

/// The model of a [`PipelineReport`].
pub struct ReportView {
    pub total_rows: nat,
    pub files: Seq<OutputView>,
    pub produced: nat,
    pub failure: Option<ErrorView>,
}

impl View for PipelineReport {
    type V = ReportView;

    open spec fn view(&self) -> ReportView {
        ReportView {
            total_rows: self.total_rows as nat,
            files: self.files@.map_values(|f: OutputFile| f@),
            produced: self.produced as nat,
            failure: match self.failure {
                Some(e) => Some(e@),
                None => None,
            },
        }
    }
}

/// Whether `report` is what a run over the table produces: the files of the
/// rows before the first one that fails, that row's failure if there is
/// one, and the counts.
pub open spec fn is_report_of(
    report: ReportView,
    schema: SchemaView,
    records: Seq<Option<Seq<Seq<char>>>>,
) -> bool {
    &&& report.total_rows == data_rows(records)
    &&& report.produced == report.files.len()
    &&& report.files.len() <= data_rows(records)
    &&& forall|k: int|
        0 <= k < report.files.len() ==> row_output(schema, records, k + 1) == Ok::<
            OutputView,
            ErrorView,
        >(#[trigger] report.files[k])
    &&& match report.failure {
        Some(e) => report.files.len() < data_rows(records) && row_output(
            schema,
            records,
            report.files.len() as int + 1,
        ) == Err::<OutputView, ErrorView>(e),
        None => report.files.len() == data_rows(records),
    }
}

/// Plans a run over the records of a table, the header row first: steps
/// through a session as if every file were stored at once.
///
/// Every data row before the first one that fails gives one file, named by
/// its position: `1`, `2`, `3` and so on. The first row that fails ends the
/// run with its failure. A table whose rows all succeed gives as many files
/// as it has data rows and no failure.
pub fn plan_outputs(schema: &Schema, records: Vec<Option<Vec<String>>>) -> (report: PipelineReport)
    ensures
        is_report_of(report@, schema@, records.deep_view()),
{
    let ghost rows = records.deep_view();
    let mut session = Session::from_records(schema, records);
    let total_rows = session.total_rows();
    let mut files: Vec<OutputFile> = Vec::new();
    let mut failure: Option<PipelineError> = None;
    loop
        invariant_except_break
            session@.schema == schema@,
            session@.records == rows,
            files.len() + 1 == session@.position,
            failure is None,
        invariant
            forall|k: int|
                0 <= k < files.len() ==> row_output(schema@, rows, k + 1) == Ok::<
                    OutputView,
                    ErrorView,
                >((#[trigger] files[k])@),
        ensures
            files.len() <= data_rows(rows),
            failure is None ==> files.len() == data_rows(rows),
            failure matches Some(e) ==> files.len() < data_rows(rows) && row_output(
                schema@,
                rows,
                files.len() as int + 1,
            ) == Err::<OutputView, ErrorView>(e@),
        decreases data_rows(rows) + 1 - files.len(),
    {
        match session.next_step() {
            Step::Store { file, pending } => {
                files.push(file);
                session = pending.stored();
            },
            Step::Finish(Ok(_)) => {
                break;
            },
            Step::Finish(Err(e)) => {
                failure = Some(e);
                break;
            },
        }
    }
    let produced = files.len();
    let report = PipelineReport { total_rows, files, produced, failure };
    assert(report@.files.len() == files.len());
    report
}

/// Runs the pipeline over the bytes of a table: reads its records and plans
/// the files, as [`plan_outputs`] does for the records read.
pub fn run(schema: &Schema, data: &[u8]) -> (report: PipelineReport)
    ensures
        is_report_of(report@, schema@, csv_records(data@)),
{
    plan_outputs(schema, read_records(data))
}

} // verus!
