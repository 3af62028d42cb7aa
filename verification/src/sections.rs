//! The three sections of a resume, cut out of its text.

use crate::header::{find_section, section_tail, tail_view, Section};
use crate::text::{
    blank_line_at, chars_of, paragraph, paragraph_end, pieces, split_window, string_of,
    trim_window, trimmed, trimmed_pieces,
};
use vstd::prelude::*;

verus! {

/// What was found of each section in one text.
#[derive(Debug, PartialEq, Eq)]
pub struct ExtractedSections {
    /// The text under the summary header; `None` where there is no such header.
    pub summary: Option<String>,
    /// The comma-separated items under the skills header, in their order.
    pub skills: Vec<String>,
    /// The lines under the experience header, in their order.
    pub experience: Vec<String>,
}

/// The sections as sequences of characters.
pub struct SectionsView {
    pub summary: Option<Seq<char>>,
    pub skills: Seq<Seq<char>>,
    pub experience: Seq<Seq<char>>,
}

impl View for ExtractedSections {
    type V = SectionsView;

    open spec fn view(&self) -> SectionsView {
        SectionsView {
            summary: match self.summary {
                Some(s) => Some(s@),
                None => None,
            },
            skills: self.skills.deep_view(),
            experience: self.experience.deep_view(),
        }
    }
}

/// Copies a list of strings.
fn clone_strings(items: &Vec<String>) -> (copy: Vec<String>)
    ensures
        copy.deep_view() == items.deep_view(),
{
    let mut copy: Vec<String> = Vec::new();
    let mut i: usize = 0;
    while i < items.len()
        invariant
            i <= items.len(),
            copy.len() == i,
            forall|j: int| 0 <= j < i ==> (#[trigger] copy[j])@ == items[j]@,
        decreases items.len() - i,
    {
        copy.push(items[i].clone());
        i += 1;
    }
    assert(copy.deep_view() =~= items.deep_view());
    copy
}

impl Clone for ExtractedSections {
    fn clone(&self) -> (copy: Self)
        ensures
            copy@ == self@,
    {
        let summary = match &self.summary {
            Some(s) => Some(s.clone()),
            None => None,
        };
        ExtractedSections {
            summary,
            skills: clone_strings(&self.skills),
            experience: clone_strings(&self.experience),
        }
    }
}

/// The span of a section whose header is followed by `tail`: what stands in
/// front of the first blank line, without the whitespace at its ends.
pub open spec fn span(tail: Seq<char>) -> Seq<char> {
    trimmed(paragraph(tail))
}

/// The summary, given what follows its header.
pub open spec fn summary_of(tail: Option<Seq<char>>) -> Option<Seq<char>> {
    match tail {
        Some(t) => Some(span(t)),
        None => None,
    }
}

/// The skills, given what follows their header: the span's pieces between
/// commas, each trimmed.
pub open spec fn skills_of(tail: Option<Seq<char>>) -> Seq<Seq<char>> {
    match tail {
        Some(t) => trimmed_pieces(span(t), ','),
        None => Seq::empty(),
    }
}

/// The experience, given what follows its header: the span's lines, each
/// trimmed.
pub open spec fn experience_of(tail: Option<Seq<char>>) -> Seq<Seq<char>> {
    match tail {
        Some(t) => trimmed_pieces(span(t), '\n'),
        None => Seq::empty(),
    }
}

/// The sections, given what follows the header of each.
pub open spec fn sections_of(
    summary_tail: Option<Seq<char>>,
    skills_tail: Option<Seq<char>>,
    experience_tail: Option<Seq<char>>,
) -> SectionsView {
    SectionsView {
        summary: summary_of(summary_tail),
        skills: skills_of(skills_tail),
        experience: experience_of(experience_tail),
    }
}

/// The sections of `text`: each from what follows the first of its headers.
pub open spec fn extracted(text: Seq<char>) -> SectionsView {
    sections_of(
        section_tail(Section::Summary, text),
        section_tail(Section::Skills, text),
        section_tail(Section::Experience, text),
    )
}

/// Reads the summary from what follows its header.
pub fn summary_from(tail: &str) -> (summary: String)
    ensures
        summary@ == span(tail@),
{
    let v = chars_of(tail);
    let end = paragraph_end(&v);
    let (a, b) = trim_window(&v, 0, end);
    string_of(&v, a, b)
}

/// Reads the items of a section from what follows its header: the pieces of
/// its span between separators, each trimmed.
pub fn items_from(tail: &str, sep: char) -> (items: Vec<String>)
    ensures
        items.deep_view() == trimmed_pieces(span(tail@), sep),
{
    let v = chars_of(tail);
    let end = paragraph_end(&v);
    let (a, b) = trim_window(&v, 0, end);
    split_window(&v, a, b, sep)
}

/// Reads the skills from what follows their header.
pub fn skills_from(tail: &str) -> (skills: Vec<String>)
    ensures
        skills.deep_view() == skills_of(Some(tail@)),
{
    items_from(tail, ',')
}

/// Reads the experience from what follows its header.
pub fn experience_from(tail: &str) -> (experience: Vec<String>)
    ensures
        experience.deep_view() == experience_of(Some(tail@)),
{
    items_from(tail, '\n')
}

/// The items of a section whose header the text does not have.
fn no_items() -> (items: Vec<String>)
    ensures
        items.deep_view() == Seq::<Seq<char>>::empty(),
{
    let items: Vec<String> = Vec::new();
    assert(items.deep_view() =~= Seq::<Seq<char>>::empty());
    items
}

/// Builds the sections from what follows the header of each; `None` stands
/// for a header that the text does not have.
pub fn sections_from(
    summary_tail: Option<&str>,
    skills_tail: Option<&str>,
    experience_tail: Option<&str>,
) -> (sections: ExtractedSections)
    ensures
        sections@ == sections_of(
            tail_view(summary_tail),
            tail_view(skills_tail),
            tail_view(experience_tail),
        ),
{
    let summary = match summary_tail {
        Some(t) => Some(summary_from(t)),
        None => None,
    };
    let skills = match skills_tail {
        Some(t) => skills_from(t),
        None => no_items(),
    };
    let experience = match experience_tail {
        Some(t) => experience_from(t),
        None => no_items(),
    };
    ExtractedSections { summary, skills, experience }
}

/// Extracts the summary, the skills and the experience from the text of a
/// resume. Each is looked for on its own; a section without a header is
/// absent or empty.
pub fn extract_info(text: &str) -> (sections: ExtractedSections)
    ensures
        sections@ == extracted(text@),
{
    let summary_tail = find_section(Section::Summary, text);
    let skills_tail = find_section(Section::Skills, text);
    let experience_tail = find_section(Section::Experience, text);
    sections_from(summary_tail, skills_tail, experience_tail)
}

/// Each field comes from what follows the header of its own section, whatever
/// the text holds of the other two.
pub proof fn lemma_fields_are_independent(text: Seq<char>)
    ensures
        extracted(text).summary == summary_of(section_tail(Section::Summary, text)),
        extracted(text).skills == skills_of(section_tail(Section::Skills, text)),
        extracted(text).experience == experience_of(section_tail(Section::Experience, text)),
{
}

/// A section has no header in the text exactly when nothing is extracted for
/// it: no summary, no skill, no line of experience. So a text without any
/// header gives three empty fields.
pub proof fn lemma_absent_exactly_without_header(text: Seq<char>)
    ensures
        extracted(text).summary is None <==> section_tail(Section::Summary, text) is None,
        extracted(text).skills.len() == 0 <==> section_tail(Section::Skills, text) is None,
        extracted(text).experience.len() == 0 <==> section_tail(Section::Experience, text) is None,
{
    if let Some(t) = section_tail(Section::Skills, text) {
        assert(pieces(span(t), ',').len() >= 1);
    }
    if let Some(t) = section_tail(Section::Experience, text) {
        assert(pieces(span(t), '\n').len() >= 1);
    }
}

/// A span of nothing gives an empty summary and, as skills or experience,
/// one empty item.
pub proof fn lemma_empty_span(tail: Seq<char>)
    requires
        span(tail).len() == 0,
    ensures
        summary_of(Some(tail)) == Some(Seq::<char>::empty()),
        skills_of(Some(tail)) == seq![Seq::<char>::empty()],
        experience_of(Some(tail)) == seq![Seq::<char>::empty()],
{
    let nothing = Seq::<char>::empty();
    assert(span(tail) =~= nothing);
    assert(pieces(nothing, ',') =~= seq![nothing]);
    assert(pieces(nothing, '\n') =~= seq![nothing]);
    assert(trimmed(nothing) =~= nothing);
    assert(trimmed_pieces(nothing, ',') =~= seq![nothing]);
    assert(trimmed_pieces(nothing, '\n') =~= seq![nothing]);
}

/// Where a blank line follows the header at once, the span is empty.
pub proof fn lemma_blank_line_after_header(tail: Seq<char>)
    requires
        blank_line_at(tail, 0),
    ensures
        span(tail) == Seq::<char>::empty(),
        summary_of(Some(tail)) == Some(Seq::<char>::empty()),
        skills_of(Some(tail)) == seq![Seq::<char>::empty()],
        experience_of(Some(tail)) == seq![Seq::<char>::empty()],
{
    assert(paragraph(tail) =~= Seq::<char>::empty());
    assert(span(tail) =~= Seq::<char>::empty());
    lemma_empty_span(tail);
}

/// Where the text ends with the header, the span is empty.
pub proof fn lemma_nothing_after_header(tail: Seq<char>)
    requires
        tail.len() == 0,
    ensures
        span(tail) == Seq::<char>::empty(),
        summary_of(Some(tail)) == Some(Seq::<char>::empty()),
        skills_of(Some(tail)) == seq![Seq::<char>::empty()],
        experience_of(Some(tail)) == seq![Seq::<char>::empty()],
{
    assert(paragraph(tail) =~= Seq::<char>::empty());
    assert(span(tail) =~= Seq::<char>::empty());
    lemma_empty_span(tail);
}

/// Two extractions from one text give the same sections.
pub proof fn lemma_same_text_same_sections(
    text: Seq<char>,
    first: SectionsView,
    second: SectionsView,
)
    requires
        first == extracted(text),
        second == extracted(text),
    ensures
        first == second,
{
}

} // verus!
