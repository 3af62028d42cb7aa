//! Finds the summary, the skills and the work experience in the plain text of
//! a resume, and lays out what was found as the rows of a table.
//!
//! - `text`: whitespace, trimming, paragraphs, splitting and joining over
//!   characters.
//! - `header`: the header phrases of each section and the search for them.
//! - `sections`: the extraction of the three sections from a text.
//! - `record`: the record of one file, kept only with skills or experience.
//! - `table`: the rows of the table of the records.
//! - `batch`: the records of a run over many files.

pub mod batch;
pub mod header;
pub mod record;
pub mod sections;
pub mod table;
pub mod text;
