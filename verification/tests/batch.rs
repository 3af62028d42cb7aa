use resume_scan::batch::{has_pdf_extension, Batch, FileOutcome};

fn strings(items: &[&str]) -> Vec<String> {
    items.iter().map(|s| s.to_string()).collect()
}

#[test]
fn a_new_batch_is_empty() {
    let batch = Batch::new();
    assert_eq!(batch.processed_count(), 0);
    assert!(batch.records().is_empty());
    assert_eq!(batch.rows(), vec![strings(&["Filename", "Summary", "Skills", "Work Experience"])]);
}

#[test]
fn one_decoded_file_and_one_that_fails() {
    let mut batch = Batch::new();
    let first = batch.add_file(Some("good.pdf".to_string()), Some("Skills\nRust, Go\n".to_string()));
    let second = batch.add_file(Some("broken.pdf".to_string()), None);
    assert_eq!(first, FileOutcome::Processed);
    assert_eq!(second, FileOutcome::NoRelevantData);
    assert_eq!(batch.processed_count(), 1);
    assert_eq!(
        batch.rows(),
        vec![
            strings(&["Filename", "Summary", "Skills", "Work Experience"]),
            strings(&["good.pdf", "No summary found", "Rust; Go", ""]),
        ]
    );
}

#[test]
fn records_are_kept_in_the_order_of_the_files() {
    let mut batch = Batch::new();
    assert_eq!(
        batch.add_file(Some("1.pdf".to_string()), Some("Experience\nAcme".to_string())),
        FileOutcome::Processed
    );
    assert_eq!(
        batch.add_file(Some("2.pdf".to_string()), Some("About\nonly a summary".to_string())),
        FileOutcome::NoRelevantData
    );
    assert_eq!(
        batch.add_file(Some("3.pdf".to_string()), Some("Skills\nRust".to_string())),
        FileOutcome::Processed
    );
    assert_eq!(batch.add_file(None, Some("Skills\nRust".to_string())), FileOutcome::NoRelevantData);
    assert_eq!(batch.processed_count(), 2);
    let names: Vec<&str> = batch.records().iter().map(|r| r.filename.as_str()).collect();
    assert_eq!(names, vec!["1.pdf", "3.pdf"]);
}

#[test]
fn pdf_extension_in_small_letters() {
    for name in ["a.pdf", "resume.final.pdf", "..pdf", "日本.pdf", " .pdf"] {
        assert!(has_pdf_extension(name, false), "{:?}", name);
        assert!(has_pdf_extension(name, true), "{:?}", name);
    }
    for name in ["", "pdf", ".pdf", "a.pd", "a.pdf ", "a.pdfx", "apdf", "a.txt", "a.pdf.bak"] {
        assert!(!has_pdf_extension(name, false), "{:?}", name);
        assert!(!has_pdf_extension(name, true), "{:?}", name);
    }
}

#[test]
fn pdf_extension_in_capitals_only_on_request() {
    for name in ["a.PDF", "a.Pdf", "a.pDf", "a.pdF"] {
        assert!(!has_pdf_extension(name, false), "{:?}", name);
        assert!(has_pdf_extension(name, true), "{:?}", name);
    }
}

#[test]
fn pdf_extension_agrees_with_the_standard_library() {
    for name in ["a.pdf", ".pdf", "..pdf", "a.b.pdf", "pdf", "a.", "a.PDF", "x.pdf.gz", "..", "."] {
        let expected = std::path::Path::new(name).extension().and_then(|e| e.to_str()) == Some("pdf");
        assert_eq!(has_pdf_extension(name, false), expected, "{:?}", name);
    }
}
