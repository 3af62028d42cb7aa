//! Finding the header of a section in a text, with the `regex` crate.

use vstd::prelude::*;
use vstd::string::StringSliceAdditionalSpecFns;
use vstd::utf8::*;

verus! {

/// The three sections that are looked for in a resume.
#[derive(Clone, Copy, Debug, PartialEq, Eq, Structural)]
pub enum Section {
    Summary,
    Skills,
    Experience,
}

/// The regular expression for the headers of `section`: its phrases, in any
/// letter case, anywhere in the text. The search takes the match that starts
/// leftmost; of two phrases that match at the same place it takes the one
/// listed first.
pub open spec fn header_pattern(section: Section) -> Seq<char> {
    match section {
        Section::Summary => "(?i)(?:summary|about me|about)"@,
        Section::Skills => "(?i)skills"@,
        Section::Experience => "(?i)(?:work experience|experience|employment history)"@,
    }
}

/// Whether `pattern` is the regular expression for the headers of a section.
pub open spec fn is_header_pattern(pattern: Seq<char>) -> bool {
    exists|section: Section| pattern == header_pattern(section)
}

/// The byte offset at which the first match of the header pattern `pattern`
/// in `text` ends, as the `regex` crate finds it; `None` where it finds no
/// match.
pub uninterp spec fn first_match_end(pattern: Seq<char>, text: Seq<char>) -> Option<usize>;

/// Compiles `pattern` with `regex::Regex::new`, searches `text` with
/// `regex::Regex::find` and reads the end of the match with
/// `regex::Match::end`. The contract names the offset found and claims what
/// the crate documents of it: it falls on a character boundary of `text`.
/// A pattern that the crate did not accept would give `None`.
#[verifier::external_body]
fn find_first_end(pattern: &str, text: &str) -> (found: Option<usize>)
    requires
        is_header_pattern(pattern@),
    ensures
        found == first_match_end(pattern@, text@),
        found matches Some(end) ==> is_char_boundary(text.spec_bytes(), end as int),
{
    match regex::Regex::new(pattern) {
        Ok(re) => match re.find(text) {
            Some(m) => Some(m.end()),
            None => None,
        },
        Err(_) => None,
    }
}

/// The characters of `text` that follow its first `offset` bytes of UTF-8.
pub open spec fn text_from(text: Seq<char>, offset: int) -> Seq<char> {
    decode_utf8(encode_utf8(text).subrange(offset, encode_utf8(text).len() as int))
}

/// What follows the first header of `section` in `text`, if it has one.
pub open spec fn section_tail(section: Section, text: Seq<char>) -> Option<Seq<char>> {
    match first_match_end(header_pattern(section), text) {
        Some(end) => Some(text_from(text, end as int)),
        None => None,
    }
}

/// The characters of a piece of text that may be missing.
pub open spec fn tail_view(tail: Option<&str>) -> Option<Seq<char>> {
    match tail {
        Some(t) => Some(t@),
        None => None,
    }
}

/// Cutting a text at a character boundary leaves one of its suffixes.
pub proof fn lemma_text_from_is_suffix(text: Seq<char>, offset: int)
    requires
        is_char_boundary(encode_utf8(text), offset),
    ensures
        text_from(text, offset).is_suffix_of(text),
{
    broadcast use group_utf8_lib;

    let bytes = encode_utf8(text);
    let head = decode_utf8(bytes.subrange(0, offset));
    let tail = text_from(text, offset);
    assert(decode_utf8(bytes) == text);
    assert(text =~= head + tail);
    assert(text.skip(head.len() as int) =~= tail);
    assert(text.skip(text.len() - tail.len()) == tail);
}

/// Gives the regular expression for the headers of `section`.
pub fn pattern_of(section: Section) -> (pattern: &'static str)
    ensures
        pattern@ == header_pattern(section),
{
    match section {
        Section::Summary => "(?i)(?:summary|about me|about)",
        Section::Skills => "(?i)skills",
        Section::Experience => "(?i)(?:work experience|experience|employment history)",
    }
}

/// Finds the first header of `section` in `text` and returns the rest of the
/// text behind it; `None` where `text` has no such header.
pub fn find_section<'a>(section: Section, text: &'a str) -> (tail: Option<&'a str>)
    ensures
        tail_view(tail) == section_tail(section, text@),
        tail matches Some(t) ==> t@.is_suffix_of(text@),
{
    match find_first_end(pattern_of(section), text) {
        Some(end) => {
            let (_, rest) = text.split_at(end);
            proof {
                broadcast use group_utf8_lib;

                assert(rest@ == decode_utf8(encode_utf8(rest@)));
                lemma_text_from_is_suffix(text@, end as int);
            }
            Some(rest)
        },
        None => None,
    }
}

} // verus!
