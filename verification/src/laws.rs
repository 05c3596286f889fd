//! What holds of every row, every document and every run.

use crate::counter::{decimal, lemma_decimal_injective};
use crate::document::{
    attribute_for, attribute_picker, attributes_of, display_type, document_of,
};
use crate::json::JsonTree;
use crate::pipeline::{
    data_rows, is_report_of, next_step_of, row_output, ErrorView, OutputView, ReportView,
    SessionView, StepView,
};
use crate::record::value_of;
use crate::schema::{BindingView, SchemaView};
use crate::table::{header_problem, occurrences};
use crate::text::{
    is_blank, is_white_space, lemma_trimmed_empty_iff_blank, lemma_trimmed_is_middle, trimmed,
};
use crate::writer::{
    attribute_trees, document_keys, document_members, lemma_document_keys,
    lemma_key_names_differ,
};
use vstd::prelude::*;

verus! {

/// A row whose attribute cells are all blank gets no attribute.
pub proof fn lemma_blank_cells_give_no_attributes(
    schema: SchemaView,
    record: Seq<(Seq<char>, Seq<char>)>,
)
    requires
        forall|i: int|
            0 <= i < schema.attributes.len() ==> is_blank(
                value_of(record, (#[trigger] schema.attributes[i]).source_column),
            ),
    ensures
        document_of(schema, record).attributes.len() == 0,
        document_members(document_of(schema, record)).last() == (
            "attributes"@,
            JsonTree::List(Seq::empty()),
        ),
{
    lemma_none_picked(schema.attributes, record);
    assert(attribute_trees(document_of(schema, record).attributes) =~= Seq::empty());
}

proof fn lemma_none_picked(bindings: Seq<BindingView>, record: Seq<(Seq<char>, Seq<char>)>)
    requires
        forall|i: int|
            0 <= i < bindings.len() ==> is_blank(
                value_of(record, (#[trigger] bindings[i]).source_column),
            ),
    ensures
        attributes_of(bindings, record).len() == 0,
    decreases bindings.len(),
{
    if bindings.len() > 0 {
        let last = bindings.last();
        lemma_trimmed_empty_iff_blank(value_of(record, last.source_column));
        assert(attribute_picker(record)(last) is None);
        let rest = bindings.drop_last();
        assert forall|i: int| 0 <= i < rest.len() implies is_blank(
            value_of(record, (#[trigger] rest[i]).source_column),
        ) by {
            assert(rest[i] == bindings[i]);
        }
        lemma_none_picked(rest, record);
    }
}

/// The name of a document is its description, and both are the title cell
/// as it stands in the row, surrounding whitespace included.
pub proof fn lemma_name_is_description(schema: SchemaView, record: Seq<(Seq<char>, Seq<char>)>)
    ensures
        document_of(schema, record).name == document_of(schema, record).description,
        document_of(schema, record).name == value_of(record, schema.title_column),
{
}

/// No member of a document's record is called `key`.
pub open spec fn lacks_key(members: Seq<(Seq<char>, JsonTree)>, key: Seq<char>) -> bool {
    forall|i: int| 0 <= i < members.len() ==> (#[trigger] members[i]).0 != key
}

/// A blank video cell leaves the document without a video and its JSON
/// record without a `video` key; a blank link cell, without an external link
/// and an `external_url` key.
pub proof fn lemma_blank_link_leaves_no_key(schema: SchemaView, record: Seq<(Seq<char>, Seq<char>)>)
    ensures
        is_blank(value_of(record, schema.video_column)) ==> document_of(schema, record).video
            is None && lacks_key(document_members(document_of(schema, record)), "video"@),
        is_blank(value_of(record, schema.link_column)) ==> document_of(
            schema,
            record,
        ).external_url is None && lacks_key(
            document_members(document_of(schema, record)),
            "external_url"@,
        ),
{
    let d = document_of(schema, record);
    lemma_trimmed_empty_iff_blank(value_of(record, schema.video_column));
    lemma_trimmed_empty_iff_blank(value_of(record, schema.link_column));
    lemma_key_names_differ();
    lemma_document_keys(d);
    assert forall|i: int| 0 <= i < document_keys(d).len() implies (d.video is None
        ==> #[trigger] document_keys(d)[i] != "video"@) && (d.external_url is None
        ==> document_keys(d)[i] != "external_url"@) by {}
}

/// A video or link cell that is not blank is in the document, trimmed, and
/// never as an empty text.
pub proof fn lemma_link_kept_trimmed(schema: SchemaView, record: Seq<(Seq<char>, Seq<char>)>)
    ensures
        !is_blank(value_of(record, schema.video_column)) ==> document_of(schema, record).video
            == Some(trimmed(value_of(record, schema.video_column))) && trimmed(
            value_of(record, schema.video_column),
        ).len() > 0,
        !is_blank(value_of(record, schema.link_column)) ==> document_of(
            schema,
            record,
        ).external_url == Some(trimmed(value_of(record, schema.link_column))) && trimmed(
            value_of(record, schema.link_column),
        ).len() > 0,
{
    lemma_trimmed_empty_iff_blank(value_of(record, schema.video_column));
    lemma_trimmed_empty_iff_blank(value_of(record, schema.link_column));
}

/// Every attribute of a document comes from a binding of the schema.
pub proof fn lemma_attribute_has_binding(
    bindings: Seq<BindingView>,
    record: Seq<(Seq<char>, Seq<char>)>,
    p: int,
)
    requires
        0 <= p < attributes_of(bindings, record).len(),
    ensures
        exists|i: int|
            0 <= i < bindings.len() && attribute_for(record, #[trigger] bindings[i]) == Some(
                attributes_of(bindings, record)[p],
            ),
    decreases bindings.len(),
{
    let rest = bindings.drop_last();
    let last = bindings.last();
    let kept = attributes_of(rest, record);
    if p < kept.len() {
        lemma_attribute_has_binding(rest, record, p);
        let i = choose|i: int|
            0 <= i < rest.len() && attribute_for(record, #[trigger] rest[i]) == Some(kept[p]);
        assert(bindings[i] == rest[i]);
    } else {
        assert(attribute_picker(record)(last) is Some);
        assert(bindings[bindings.len() - 1] == last);
    }
}

/// Every attribute of a document holds a text that is not empty and has no
/// whitespace at either end, and has the display type `string`.
pub proof fn lemma_attributes_hold_trimmed_texts(
    bindings: Seq<BindingView>,
    record: Seq<(Seq<char>, Seq<char>)>,
    p: int,
)
    requires
        0 <= p < attributes_of(bindings, record).len(),
    ensures
        attributes_of(bindings, record)[p].value.len() > 0,
        !is_white_space(attributes_of(bindings, record)[p].value.first()),
        !is_white_space(attributes_of(bindings, record)[p].value.last()),
        attributes_of(bindings, record)[p].display_type == display_type(),
{
    lemma_attribute_has_binding(bindings, record, p);
    let i = choose|i: int|
        0 <= i < bindings.len() && attribute_for(record, #[trigger] bindings[i]) == Some(
            attributes_of(bindings, record)[p],
        );
    lemma_trimmed_is_middle(value_of(record, bindings[i].source_column));
}

/// The attributes of a document stand in the order of the schema's
/// bindings: of two attributes, the earlier one comes from an earlier
/// binding.
pub proof fn lemma_attributes_follow_schema_order(
    bindings: Seq<BindingView>,
    record: Seq<(Seq<char>, Seq<char>)>,
    p: int,
    q: int,
)
    requires
        0 <= p < q < attributes_of(bindings, record).len(),
    ensures
        exists|i: int, j: int|
            0 <= i < j < bindings.len() && attribute_for(record, #[trigger] bindings[i]) == Some(
                attributes_of(bindings, record)[p],
            ) && attribute_for(record, #[trigger] bindings[j]) == Some(
                attributes_of(bindings, record)[q],
            ),
    decreases bindings.len(),
{
    let rest = bindings.drop_last();
    let last = bindings.last();
    let kept = attributes_of(rest, record);
    if q < kept.len() {
        lemma_attributes_follow_schema_order(rest, record, p, q);
        let (i, j) = choose|i: int, j: int|
            0 <= i < j < rest.len() && attribute_for(record, #[trigger] rest[i]) == Some(kept[p])
                && attribute_for(record, #[trigger] rest[j]) == Some(kept[q]);
        assert(bindings[i] == rest[i]);
        assert(bindings[j] == rest[j]);
    } else {
        assert(attribute_picker(record)(last) is Some);
        lemma_attribute_has_binding(rest, record, p);
        let i = choose|i: int|
            0 <= i < rest.len() && attribute_for(record, #[trigger] rest[i]) == Some(kept[p]);
        let j = bindings.len() - 1;
        assert(bindings[i] == rest[i]);
        assert(bindings[j] == last);
    }
}

/// The column names of a row's fields.
pub open spec fn field_names(record: Seq<(Seq<char>, Seq<char>)>) -> Seq<Seq<char>> {
    record.map_values(|f: (Seq<char>, Seq<char>)| f.0)
}

proof fn lemma_occurrences(names: Seq<Seq<char>>, name: Seq<char>)
    ensures
        occurrences(names, name) == 0 <==> forall|i: int|
            0 <= i < names.len() ==> #[trigger] names[i] != name,
        occurrences(names, name) == 1 ==> forall|i: int, j: int|
            0 <= i < names.len() && 0 <= j < names.len() && #[trigger] names[i] == name
                && #[trigger] names[j] == name ==> i == j,
    decreases names.len(),
{
    if names.len() > 0 {
        let rest = names.drop_last();
        lemma_occurrences(rest, name);
        assert forall|i: int| 0 <= i < rest.len() implies #[trigger] rest[i] == names[i] by {}
        if occurrences(names, name) == 0 {
            assert forall|i: int| 0 <= i < names.len() implies #[trigger] names[i] != name by {
                if i < rest.len() {
                    assert(rest[i] == names[i]);
                }
            }
        } else if occurrences(rest, name) == 0 {
            assert(names[names.len() - 1] == name);
        } else {
            let k = choose|k: int| 0 <= k < rest.len() && #[trigger] rest[k] == name;
            assert(names[k] == name);
        }
        if occurrences(names, name) == 1 {
            assert forall|i: int, j: int|
                0 <= i < names.len() && 0 <= j < names.len() && #[trigger] names[i] == name
                    && #[trigger] names[j] == name implies i == j by {
                if names.last() == name {
                    if i < rest.len() {
                        assert(rest[i] == name);
                    }
                    if j < rest.len() {
                        assert(rest[j] == name);
                    }
                } else {
                    assert(rest[i] == name);
                    assert(rest[j] == name);
                }
            }
        }
    }
}

proof fn lemma_value_of_first_match(record: Seq<(Seq<char>, Seq<char>)>, name: Seq<char>, i: int)
    requires
        0 <= i < record.len(),
        record[i].0 == name,
        forall|j: int| 0 <= j < i ==> (#[trigger] record[j]).0 != name,
    ensures
        value_of(record, name) == record[i].1,
    decreases i,
{
    if i > 0 {
        let rest = record.drop_first();
        assert(record.first() == record[0]);
        assert forall|j: int| 0 <= j < i - 1 implies (#[trigger] rest[j]).0 != name by {
            assert(rest[j] == record[j + 1]);
        }
        assert(rest[i - 1] == record[i]);
        lemma_value_of_first_match(rest, name, i - 1);
    }
}

/// A header row fits a schema exactly if it holds each of the schema's
/// columns exactly once.
pub proof fn lemma_header_fits(columns: Seq<Seq<char>>, header: Seq<Seq<char>>)
    ensures
        header_problem(columns, header) is None <==> forall|k: int|
            0 <= k < columns.len() ==> occurrences(header, #[trigger] columns[k]) == 1,
    decreases columns.len(),
{
    if columns.len() > 0 {
        let rest = columns.drop_first();
        lemma_header_fits(rest, header);
        if header_problem(columns, header) is None {
            assert forall|k: int| 0 <= k < columns.len() implies occurrences(
                header,
                #[trigger] columns[k],
            ) == 1 by {
                if k > 0 {
                    assert(rest[k - 1] == columns[k]);
                }
            }
        } else if occurrences(header, columns[0]) == 1 {
            let k = choose|k: int|
                0 <= k < rest.len() && occurrences(header, #[trigger] rest[k]) != 1;
            assert(columns[k + 1] == rest[k]);
        }
    }
}

proof fn lemma_same_cell(
    first: Seq<(Seq<char>, Seq<char>)>,
    second: Seq<(Seq<char>, Seq<char>)>,
    column: Seq<char>,
)
    requires
        occurrences(field_names(first), column) == 1,
        occurrences(field_names(second), column) == 1,
        forall|f: (Seq<char>, Seq<char>)|
            f.0 == column ==> (first.contains(f) <==> second.contains(f)),
    ensures
        value_of(first, column) == value_of(second, column),
{
    let names = field_names(first);
    let others = field_names(second);
    lemma_occurrences(names, column);
    lemma_occurrences(others, column);
    let i = choose|i: int| 0 <= i < names.len() && #[trigger] names[i] == column;
    assert forall|j: int| 0 <= j < i implies (#[trigger] first[j]).0 != column by {
        assert(names[j] == first[j].0);
    }
    lemma_value_of_first_match(first, column, i);
    assert(first.contains(first[i]));
    let f = first[i];
    assert(second.contains(f));
    let k = choose|k: int| 0 <= k < second.len() && second[k] == f;
    assert(others[k] == column);
    assert forall|j: int| 0 <= j < k implies (#[trigger] second[j]).0 != column by {
        assert(others[j] == second[j].0);
    }
    lemma_value_of_first_match(second, column, k);
}

proof fn lemma_same_attributes(
    bindings: Seq<BindingView>,
    first: Seq<(Seq<char>, Seq<char>)>,
    second: Seq<(Seq<char>, Seq<char>)>,
)
    requires
        forall|i: int|
            0 <= i < bindings.len() ==> value_of(first, (#[trigger] bindings[i]).source_column)
                == value_of(second, bindings[i].source_column),
    ensures
        attributes_of(bindings, first) == attributes_of(bindings, second),
    decreases bindings.len(),
{
    if bindings.len() > 0 {
        let rest = bindings.drop_last();
        assert forall|i: int| 0 <= i < rest.len() implies value_of(
            first,
            (#[trigger] rest[i]).source_column,
        ) == value_of(second, rest[i].source_column) by {
            assert(rest[i] == bindings[i]);
        }
        lemma_same_attributes(rest, first, second);
        assert(bindings[bindings.len() - 1] == bindings.last());
        assert(attribute_picker(first)(bindings.last()) == attribute_picker(second)(
            bindings.last(),
        ));
    }
}

/// The order of the columns in the table does not matter: two rows that
/// hold the same cells under the schema's columns, each column once, give
/// the same document, attributes in the same order, wherever the columns
/// stand in either row.
pub proof fn lemma_column_order_is_irrelevant(
    schema: SchemaView,
    first: Seq<(Seq<char>, Seq<char>)>,
    second: Seq<(Seq<char>, Seq<char>)>,
)
    requires
        header_problem(schema.columns(), field_names(first)) is None,
        header_problem(schema.columns(), field_names(second)) is None,
        forall|f: (Seq<char>, Seq<char>)|
            schema.columns().contains(f.0) ==> (first.contains(f) <==> second.contains(f)),
    ensures
        document_of(schema, first) == document_of(schema, second),
{
    let columns = schema.columns();
    assert forall|k: int| 0 <= k < columns.len() implies value_of(first, #[trigger] columns[k])
        == value_of(second, columns[k]) by {
        lemma_header_fits(columns, field_names(first));
        lemma_header_fits(columns, field_names(second));
        assert(columns.contains(columns[k]));
        lemma_same_cell(first, second, columns[k]);
    }
    assert(columns[0] == schema.title_column);
    assert(columns[1] == schema.image_column);
    assert(columns[2] == schema.video_column);
    assert(columns[3] == schema.link_column);
    assert forall|i: int| 0 <= i < schema.attributes.len() implies value_of(
        first,
        (#[trigger] schema.attributes[i]).source_column,
    ) == value_of(second, schema.attributes[i].source_column) by {
        assert(columns[4 + i] == schema.attributes[i].source_column);
    }
    lemma_same_attributes(schema.attributes, first, second);
}

/// A run over a table whose rows all succeed produces one file for each data
/// row, named `1`, `2`, `3` and so on in row order, reports that number and
/// no failure.
pub proof fn lemma_every_row_gives_a_file(
    report: ReportView,
    schema: SchemaView,
    records: Seq<Option<Seq<Seq<char>>>>,
)
    requires
        is_report_of(report, schema, records),
        forall|position: int|
            1 <= position <= data_rows(records) ==> (#[trigger] row_output(
                schema,
                records,
                position,
            )) is Ok,
    ensures
        report.failure is None,
        report.files.len() == data_rows(records),
        report.produced == data_rows(records),
        forall|k: int|
            0 <= k < report.files.len() ==> (#[trigger] report.files[k]).name == decimal(
                (k + 1) as nat,
            ),
        forall|j: int, k: int|
            0 <= j < k < report.files.len() ==> (#[trigger] report.files[j]).name
                != (#[trigger] report.files[k]).name,
{
    if report.failure is Some {
        assert(row_output(schema, records, report.files.len() as int + 1) is Ok);
    }
    assert forall|k: int| 0 <= k < report.files.len() implies (#[trigger] report.files[k]).name
        == decimal((k + 1) as nat) by {
        assert(row_output(schema, records, k + 1) is Ok);
    }
    assert forall|j: int, k: int| 0 <= j < k < report.files.len() implies (
        #[trigger] report.files[j]
    ).name != (#[trigger] report.files[k]).name by {
        if report.files[j].name == report.files[k].name {
            lemma_decimal_injective((j + 1) as nat, (k + 1) as nat);
        }
    }
}

/// A run fails only on a row: no report holds an I/O error, which only the
/// caller who reads and stores can raise.
pub proof fn lemma_run_raises_no_io_error(
    report: ReportView,
    schema: SchemaView,
    records: Seq<Option<Seq<Seq<char>>>>,
)
    requires
        is_report_of(report, schema, records),
    ensures
        report.failure matches Some(e) ==> (e matches ErrorView::Parse { row, .. } && row
            == report.files.len() + 1) || (e matches ErrorView::Render { row } && row
            == report.files.len() + 1),
{
}

/// A row that fails ends the run at once: the step that is due is the end of
/// the run with that row's failure, and the file of no later row is asked
/// for. A row that succeeds has its file stored under its position.
pub proof fn lemma_failure_ends_the_run(session: SessionView)
    requires
        session.well_formed(),
        session.position <= data_rows(session.records),
    ensures
        row_output(session.schema, session.records, session.position as int) matches Err(e)
            ==> next_step_of(session) == StepView::Finish(Err(e)),
        row_output(session.schema, session.records, session.position as int) matches Ok(file)
            ==> next_step_of(session) == (StepView::Store { file, pending: session })
            && file.name == decimal(session.position),
{
}

/// The steps of a run over a table whose rows all succeed, every file being
/// stored: after the files of the first `stored` rows, the file of the next
/// row is due under the next number, and after the file of the last row the
/// run ends with the number of the rows.
pub proof fn lemma_steps_when_every_row_succeeds(
    schema: SchemaView,
    records: Seq<Option<Seq<Seq<char>>>>,
    stored: nat,
)
    requires
        stored <= data_rows(records),
        forall|position: int|
            1 <= position <= data_rows(records) ==> (#[trigger] row_output(
                schema,
                records,
                position,
            )) is Ok,
    ensures
        ({
            let session = SessionView { schema, records, position: stored + 1 };
            &&& stored < data_rows(records) ==> (next_step_of(session) matches StepView::Store {
                file,
                pending,
            } && file.name == decimal(stored + 1) && pending == session)
            &&& stored == data_rows(records) ==> next_step_of(session) == StepView::Finish(
                Ok(data_rows(records)),
            )
        }),
{
    if stored < data_rows(records) {
        assert(row_output(schema, records, stored as int + 1) is Ok);
    }
}

/// A run is determined by the table: two reports of the same run are equal.
pub proof fn lemma_report_is_unique(
    a: ReportView,
    b: ReportView,
    schema: SchemaView,
    records: Seq<Option<Seq<Seq<char>>>>,
)
    requires
        is_report_of(a, schema, records),
        is_report_of(b, schema, records),
    ensures
        a == b,
{
    let shorter = if a.files.len() < b.files.len() {
        a.files.len() as int
    } else {
        b.files.len() as int
    };
    if a.files.len() != b.files.len() {
        // The longer report has a file for the row at which the shorter one
        // fails.
        let next = row_output(schema, records, shorter + 1);
        if a.files.len() < b.files.len() {
            assert(next == Ok::<OutputView, ErrorView>(b.files[shorter]));
        } else {
            assert(next == Ok::<OutputView, ErrorView>(a.files[shorter]));
        }
    }
    assert forall|k: int| 0 <= k < a.files.len() implies a.files[k] == b.files[k] by {
        let output = row_output(schema, records, k + 1);
        assert(output == Ok::<OutputView, ErrorView>(a.files[k]));
        assert(output == Ok::<OutputView, ErrorView>(b.files[k]));
    }
    assert(a.files =~= b.files);
}

} // verus!
