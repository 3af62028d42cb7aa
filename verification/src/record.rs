//! A resume's record: its file name with the sections found in its text.

use crate::sections::{extract_info, extracted, ExtractedSections, SectionsView};
use vstd::prelude::*;

verus! {

/// The name of a file with the text that was decoded from it.
#[derive(Debug, PartialEq, Eq)]
pub struct RawDocument {
    pub filename: String,
    pub text: String,
}

/// The sections of one resume, under the name of its file.
#[derive(Debug, PartialEq, Eq)]
pub struct ResumeRecord {
    pub filename: String,
    pub sections: ExtractedSections,
}

/// A record as sequences of characters.
pub struct RecordView {
    pub filename: Seq<char>,
    pub sections: SectionsView,
}

impl View for ResumeRecord {
    type V = RecordView;

    open spec fn view(&self) -> RecordView {
        RecordView { filename: self.filename@, sections: self.sections@ }
    }
}

impl Clone for ResumeRecord {
    fn clone(&self) -> (copy: Self)
        ensures
            copy@ == self@,
    {
        ResumeRecord { filename: self.filename.clone(), sections: self.sections.clone() }
    }
}

impl DeepView for ResumeRecord {
    type V = RecordView;

    open spec fn deep_view(&self) -> RecordView {
        self@
    }
}

/// Whether sections are worth a record: they hold a skill or a line of
/// experience. A summary does not count.
pub open spec fn is_kept(sections: SectionsView) -> bool {
    sections.skills.len() > 0 || sections.experience.len() > 0
}

/// The record for `sections` under `filename`, where they are worth one.
pub open spec fn built(filename: Seq<char>, sections: SectionsView) -> Option<RecordView> {
    if is_kept(sections) {
        Some(RecordView { filename, sections })
    } else {
        None
    }
}

/// The record that a file gives: none where its text could not be decoded or
/// its path has no file name, else the record of the sections of its text.
pub open spec fn processed(file_name: Option<Seq<char>>, decoded: Option<Seq<char>>) -> Option<
    RecordView,
> {
    match (file_name, decoded) {
        (Some(name), Some(text)) => built(name, extracted(text)),
        _ => None,
    }
}

/// The view of a record that may be missing.
pub open spec fn record_view(record: Option<ResumeRecord>) -> Option<RecordView> {
    match record {
        Some(r) => Some(r@),
        None => None,
    }
}

/// The characters of a string that may be missing.
pub open spec fn string_view(s: Option<String>) -> Option<Seq<char>> {
    match s {
        Some(s) => Some(s@),
        None => None,
    }
}

/// Makes the record of `sections` under `filename`, or nothing where the
/// sections hold neither a skill nor a line of experience.
pub fn build(filename: String, sections: ExtractedSections) -> (record: Option<ResumeRecord>)
    ensures
        record is Some <==> sections@.skills.len() > 0 || sections@.experience.len() > 0,
        record_view(record) == built(filename@, sections@),
{
    if sections.skills.len() > 0 || sections.experience.len() > 0 {
        Some(ResumeRecord { filename, sections })
    } else {
        None
    }
}

impl RawDocument {
    /// Extracts the sections of the document's text and makes its record, or
    /// nothing where the text holds neither skills nor experience.
    pub fn into_record(self) -> (record: Option<ResumeRecord>)
        ensures
            record_view(record) == built(self.filename@, extracted(self.text@)),
    {
        let sections = extract_info(self.text.as_str());
        build(self.filename, sections)
    }
}

/// Turns what was read of one file into its record: `file_name` is the last
/// part of its path, `decoded` its text, each `None` where it could not be
/// had. A file without decoded text gives no record.
pub fn process_pdf(file_name: Option<String>, decoded: Option<String>) -> (record: Option<
    ResumeRecord,
>)
    ensures
        record_view(record) == processed(string_view(file_name), string_view(decoded)),
{
    match (file_name, decoded) {
        (Some(filename), Some(text)) => (RawDocument { filename, text }).into_record(),
        _ => None,
    }
}

} // verus!
