use metastrip::{extract_metadata_field, extract_pdf_metadata_simple, str_chars,
    strip_pdf_metadata};

#[test]
fn test_strip_pdf_metadata() {
    let content = b"test pdf content".to_vec();
    let (output, report) = strip_pdf_metadata(&content);
    assert_eq!(output, content);
    assert!(!report.is_empty());
}

#[test]
fn pdf_author_is_reported_and_bytes_kept() {
    let content = b"%PDF-1.4\n1 0 obj\n<< /Author(Jane Doe) >>\nendobj\n".to_vec();
    let (output, report) = strip_pdf_metadata(&content);
    assert_eq!(output, content);
    assert!(report.iter().any(|item| item == "Author: Jane Doe"));
}

#[test]
fn pdf_fallback_when_nothing_found() {
    let content = b"%PDF-1.4 nothing interesting".to_vec();
    let (_, report) = strip_pdf_metadata(&content);
    assert_eq!(report.len(), 8);
    assert_eq!(report[0], "Author (if present)");
    assert_eq!(report[7], "Keywords (if present)");
}

#[test]
fn pdf_field_nested_parentheses() {
    let content = str_chars("/Title(Hello (nested) World)");
    let mut metadata: Vec<String> = Vec::new();
    extract_metadata_field(&content, "/Title", &mut metadata, "Title");
    assert_eq!(metadata, vec!["Title: Hello (nested) World".to_string()]);
}

#[test]
fn pdf_field_unescapes_sequences() {
    let content = str_chars("/Subject(line one\\nline two\\tend\\\\done)");
    let mut metadata: Vec<String> = Vec::new();
    extract_metadata_field(&content, "/Subject", &mut metadata, "Subject");
    assert_eq!(metadata, vec!["Subject: line one\nline two\tend\\done".to_string()]);
}

#[test]
fn pdf_field_name_delimited_value() {
    let content = str_chars("/CreationDate D:20230101120000Z /Producer(Tool)");
    let mut metadata: Vec<String> = Vec::new();
    extract_metadata_field(&content, "/CreationDate", &mut metadata, "Creation Date");
    assert_eq!(metadata, vec!["Creation Date: D:20230101120000Z".to_string()]);
}

#[test]
fn pdf_field_slash_value_is_empty() {
    let content = str_chars("/Title /Author(Jane)");
    let mut metadata: Vec<String> = Vec::new();
    extract_metadata_field(&content, "/Title", &mut metadata, "Title");
    assert!(metadata.is_empty());
}

#[test]
fn pdf_field_missing_key_leaves_report_unchanged() {
    let content = str_chars("no keys here");
    let mut metadata: Vec<String> = vec!["existing".to_string()];
    extract_metadata_field(&content, "/Title", &mut metadata, "Title");
    assert_eq!(metadata, vec!["existing".to_string()]);
}

#[test]
fn pdf_field_empty_value_not_reported() {
    let content = str_chars("/Author() /Title(  )");
    let mut metadata: Vec<String> = Vec::new();
    extract_metadata_field(&content, "/Author", &mut metadata, "Author");
    extract_metadata_field(&content, "/Title", &mut metadata, "Title");
    assert!(metadata.is_empty());
}

#[test]
fn pdf_simple_extraction_reports_keys_in_order() {
    let content = str_chars(
        "<< /ModDate(D:2024) /Title(My Paper) /Author(Jane Doe) /Producer(pdftool) >>",
    );
    let report = extract_pdf_metadata_simple(&content);
    assert_eq!(
        report,
        vec![
            "Title: My Paper".to_string(),
            "Author: Jane Doe".to_string(),
            "Producer: pdftool".to_string(),
            "Modification Date: D:2024".to_string(),
        ]
    );
}

#[test]
fn pdf_unicode_space_around_value_trimmed() {
    let content = str_chars("/Title(\u{a0}Spaced Out\u{2003})");
    let mut metadata: Vec<String> = Vec::new();
    extract_metadata_field(&content, "/Title", &mut metadata, "Title");
    assert_eq!(metadata, vec!["Title: Spaced Out".to_string()]);
}

#[test]
fn pdf_value_trimmed_before_reporting() {
    let content = str_chars("/Keywords(  alpha, beta  )");
    let mut metadata: Vec<String> = Vec::new();
    extract_metadata_field(&content, "/Keywords", &mut metadata, "Keywords");
    assert_eq!(metadata, vec!["Keywords: alpha, beta".to_string()]);
}

#[test]
fn pdf_extraction_survives_invalid_utf8() {
    let mut content = vec![0xffu8, 0xfe, 0x00, 0x80];
    content.extend_from_slice(b" /Author(Jane Doe) ");
    content.push(0xff);
    let (output, report) = strip_pdf_metadata(&content);
    assert_eq!(output, content);
    assert!(report.iter().any(|item| item == "Author: Jane Doe"));
}

#[test]
fn pdf_unterminated_parenthesis_takes_rest() {
    let content = str_chars("/Title(never closed");
    let mut metadata: Vec<String> = Vec::new();
    extract_metadata_field(&content, "/Title", &mut metadata, "Title");
    assert_eq!(metadata, vec!["Title: never closed".to_string()]);
}
