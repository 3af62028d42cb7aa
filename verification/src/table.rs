//! The table of the records: a header row, then one row of four cells for
//! each record.

use crate::record::{RecordView, ResumeRecord};
use crate::text::{join, joined};
use vstd::prelude::*;

verus! {

/// The row of column titles.
pub open spec fn header_row() -> Seq<Seq<char>> {
    seq!["Filename"@, "Summary"@, "Skills"@, "Work Experience"@]
}

/// What stands between two skills, or two lines of experience, in a cell.
pub open spec fn item_separator() -> Seq<char> {
    "; "@
}

/// The cell for a summary: the summary itself, or a fixed phrase in place of
/// a missing one.
pub open spec fn summary_cell(summary: Option<Seq<char>>) -> Seq<char> {
    match summary {
        Some(s) => s,
        None => "No summary found"@,
    }
}

/// The row of a record: file name, summary, skills, experience.
pub open spec fn record_row(record: RecordView) -> Seq<Seq<char>> {
    seq![
        record.filename,
        summary_cell(record.sections.summary),
        joined(record.sections.skills, item_separator()),
        joined(record.sections.experience, item_separator()),
    ]
}

/// The rows of the table for `records`: the header row, then the row of each
/// record, in order.
pub open spec fn table_rows(records: Seq<RecordView>) -> Seq<Seq<Seq<char>>> {
    Seq::new(
        records.len() + 1,
        |i: int|
            if i == 0 {
                header_row()
            } else {
                record_row(records[i - 1])
            },
    )
}

/// Makes the row of column titles.
pub fn header() -> (row: Vec<String>)
    ensures
        row.deep_view() == header_row(),
{
    let row = vec![
        "Filename".to_owned(),
        "Summary".to_owned(),
        "Skills".to_owned(),
        "Work Experience".to_owned(),
    ];
    assert(row.deep_view() =~= header_row());
    row
}

/// Makes the row of `record`.
pub fn row_of(record: &ResumeRecord) -> (row: Vec<String>)
    ensures
        row.deep_view() == record_row(record@),
{
    let summary = match &record.sections.summary {
        Some(s) => s.clone(),
        None => "No summary found".to_owned(),
    };
    let row = vec![
        record.filename.clone(),
        summary,
        join(&record.sections.skills, "; "),
        join(&record.sections.experience, "; "),
    ];
    assert(row.deep_view() =~= record_row(record@));
    row
}

/// Makes the rows of the table for `records`, ready to be written out as
/// comma-separated values.
pub fn csv_rows(records: &Vec<ResumeRecord>) -> (rows: Vec<Vec<String>>)
    ensures
        rows.deep_view() == table_rows(records.deep_view()),
{
    let mut rows: Vec<Vec<String>> = Vec::new();
    rows.push(header());
    let mut i: usize = 0;
    while i < records.len()
        invariant
            i <= records.len(),
            rows.len() == i + 1,
            rows[0].deep_view() == header_row(),
            forall|k: int|
                1 <= k <= i ==> (#[trigger] rows[k]).deep_view() == record_row(records[k - 1]@),
        decreases records.len() - i,
    {
        rows.push(row_of(&records[i]));
        i += 1;
    }
    assert forall|k: int| 0 <= k < rows.len() implies rows.deep_view()[k] == table_rows(
        records.deep_view(),
    )[k] by {
        assert(rows.deep_view()[k] == rows[k].deep_view());
        if k > 0 {
            assert(records.deep_view()[k - 1] == records[k - 1]@);
        }
    }
    assert(rows.deep_view() =~= table_rows(records.deep_view()));
    rows
}

} // verus!
