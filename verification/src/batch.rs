//! A run over many files: which files are candidates, and what each adds to
//! the records that are kept.

use crate::record::{process_pdf, processed, string_view, RecordView, ResumeRecord};
use crate::table::{csv_rows, table_rows};
use crate::text::chars_of;
use vstd::prelude::*;

verus! {

/// Whether a file name ends in the extension `.pdf` behind at least one other
/// character; with `ignore_case` the letters may be capitals.
pub open spec fn is_pdf_name(name: Seq<char>, ignore_case: bool) -> bool {
    let n = name.len() as int;
    &&& n > 4
    &&& name[n - 4] == '.'
    &&& name[n - 3] == 'p' || (ignore_case && name[n - 3] == 'P')
    &&& name[n - 2] == 'd' || (ignore_case && name[n - 2] == 'D')
    &&& name[n - 1] == 'f' || (ignore_case && name[n - 1] == 'F')
}

/// Tells whether the file called `name` is a candidate: whether its name has
/// the extension `pdf`, in small letters unless `ignore_case` is set.
pub fn has_pdf_extension(name: &str, ignore_case: bool) -> (b: bool)
    ensures
        b == is_pdf_name(name@, ignore_case),
{
    let v = chars_of(name);
    let n = v.len();
    if n <= 4 {
        return false;
    }
    v[n - 4] == '.' && (v[n - 3] == 'p' || (ignore_case && v[n - 3] == 'P')) && (v[n - 2] == 'd'
        || (ignore_case && v[n - 2] == 'D')) && (v[n - 1] == 'f' || (ignore_case && v[n - 1]
        == 'F'))
}

/// What became of one file of a run.
#[derive(Clone, Copy, Debug, PartialEq, Eq, Structural)]
pub enum FileOutcome {
    /// Its record was kept.
    Processed,
    /// It gave no record: its text could not be decoded, or holds neither
    /// skills nor experience.
    NoRelevantData,
}

/// The records kept so far in one run, in the order of the files.
pub struct Batch {
    records: Vec<ResumeRecord>,
}

impl View for Batch {
    type V = Seq<RecordView>;

    closed spec fn view(&self) -> Seq<RecordView> {
        self.records.deep_view()
    }
}

impl Batch {
    /// Starts a run with no record.
    pub fn new() -> (batch: Batch)
        ensures
            batch@ == Seq::<RecordView>::empty(),
    {
        let batch = Batch { records: Vec::new() };
        assert(batch@ =~= Seq::<RecordView>::empty());
        batch
    }

    /// Takes in one file: `file_name` is the last part of its path, `decoded`
    /// its text, each `None` where it could not be had. The file's record is
    /// appended where it gives one; nothing else changes.
    pub fn add_file(&mut self, file_name: Option<String>, decoded: Option<String>) -> (outcome:
        FileOutcome)
        ensures
            match processed(string_view(file_name), string_view(decoded)) {
                Some(record) => outcome == FileOutcome::Processed && final(self)@ == old(self)@.push(
                    record,
                ),
                None => outcome == FileOutcome::NoRelevantData && final(self)@ == old(self)@,
            },
    {
        match process_pdf(file_name, decoded) {
            Some(record) => {
                let ghost before = self@;
                self.records.push(record);
                assert(self@ =~= before.push(record@));
                FileOutcome::Processed
            },
            None => FileOutcome::NoRelevantData,
        }
    }

    /// The number of files whose record was kept.
    pub fn processed_count(&self) -> (count: usize)
        ensures
            count == self@.len(),
    {
        self.records.len()
    }

    /// The records kept so far.
    pub fn records(&self) -> (records: &Vec<ResumeRecord>)
        ensures
            records.deep_view() == self@,
    {
        &self.records
    }

    /// The rows of the table for the records kept so far.
    pub fn rows(&self) -> (rows: Vec<Vec<String>>)
        ensures
            rows.deep_view() == table_rows(self@),
    {
        csv_rows(&self.records)
    }
}

} // verus!
