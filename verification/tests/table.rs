use resume_scan::record::ResumeRecord;
use resume_scan::sections::ExtractedSections;
use resume_scan::table::{csv_rows, header, row_of};

fn strings(items: &[&str]) -> Vec<String> {
    items.iter().map(|s| s.to_string()).collect()
}

fn record(name: &str, summary: Option<&str>, skills: &[&str], experience: &[&str]) -> ResumeRecord {
    ResumeRecord {
        filename: name.to_string(),
        sections: ExtractedSections {
            summary: summary.map(|s| s.to_string()),
            skills: strings(skills),
            experience: strings(experience),
        },
    }
}

fn write_csv(rows: &Vec<Vec<String>>) -> Vec<u8> {
    let mut writer = csv::Writer::from_writer(Vec::new());
    for row in rows {
        writer.write_record(row).unwrap();
    }
    writer.into_inner().unwrap()
}

#[test]
fn header_names_the_four_columns() {
    assert_eq!(header(), strings(&["Filename", "Summary", "Skills", "Work Experience"]));
}

#[test]
fn row_of_joins_the_items_with_semicolons() {
    let r = record("a.pdf", Some("Hello"), &["Python", "Go", "Rust"], &["Acme", "Beta"]);
    assert_eq!(row_of(&r), strings(&["a.pdf", "Hello", "Python; Go; Rust", "Acme; Beta"]));
}

#[test]
fn row_of_writes_a_phrase_for_a_missing_summary() {
    let r = record("b.pdf", None, &["Rust"], &[]);
    assert_eq!(row_of(&r), strings(&["b.pdf", "No summary found", "Rust", ""]));
}

#[test]
fn row_of_keeps_an_empty_summary() {
    let r = record("c.pdf", Some(""), &[""], &["", ""]);
    assert_eq!(row_of(&r), strings(&["c.pdf", "", "", "; "]));
}

#[test]
fn csv_rows_starts_with_the_header() {
    assert_eq!(csv_rows(&vec![]), vec![header()]);
    let records = vec![
        record("a.pdf", None, &["Rust"], &[]),
        record("b.pdf", Some("Hi"), &[], &["Acme", "Beta"]),
    ];
    assert_eq!(
        csv_rows(&records),
        vec![
            strings(&["Filename", "Summary", "Skills", "Work Experience"]),
            strings(&["a.pdf", "No summary found", "Rust", ""]),
            strings(&["b.pdf", "Hi", "", "Acme; Beta"]),
        ]
    );
}

#[test]
fn rows_written_as_csv_read_back_the_same() {
    let r = record(
        "my, \"best\" resume.pdf",
        Some("Line one\nline two, with a comma"),
        &["Rust", "C, C++", "say \"hi\""],
        &["Engineer at Acme, Inc.", "Intern at Beta"],
    );
    let rows = csv_rows(&vec![r.clone()]);
    let bytes = write_csv(&rows);
    let mut reader = csv::Reader::from_reader(bytes.as_slice());
    let titles: Vec<String> = reader.headers().unwrap().iter().map(|s| s.to_string()).collect();
    assert_eq!(titles, header());
    let read: Vec<csv::StringRecord> = reader.records().map(|r| r.unwrap()).collect();
    assert_eq!(read.len(), 1);
    assert_eq!(&read[0][0], "my, \"best\" resume.pdf");
    assert_eq!(&read[0][1], "Line one\nline two, with a comma");
    assert_eq!(&read[0][2], "Rust; C, C++; say \"hi\"");
    assert_eq!(&read[0][3], "Engineer at Acme, Inc.; Intern at Beta");
    assert_eq!(&read[0][2], r.sections.skills.join("; "));
    assert_eq!(&read[0][3], r.sections.experience.join("; "));
}

#[test]
fn plain_rows_are_written_without_quotes() {
    let rows = csv_rows(&vec![record("a.pdf", None, &["Python", "Go"], &["Acme"])]);
    assert_eq!(
        String::from_utf8(write_csv(&rows)).unwrap(),
        "Filename,Summary,Skills,Work Experience\na.pdf,No summary found,Python; Go,Acme\n"
    );
}
