use metastrip::{aggregate_stats, output_path_for, process_batch, process_one, Config, FileData,
    FileType, ProcessingError, ProcessingStats};

fn base_config() -> Config {
    Config {
        overwrite: false,
        output_dir: None,
        backup: false,
        dry_run: false,
        only_images: false,
        only_videos: false,
        only_pdfs: false,
    }
}

#[test]
fn output_path_overwrite_keeps_input() {
    let mut c = base_config();
    c.overwrite = true;
    c.output_dir = Some("ignored".to_string());
    assert_eq!(output_path_for("dir/photo.jpg", &c), "dir/photo.jpg");
}

#[test]
fn output_path_defaults_to_parent_directory() {
    let c = base_config();
    assert_eq!(output_path_for("some/dir/photo.jpg", &c), "some/dir/photo.jpg");
    assert_eq!(output_path_for("photo.jpg", &c), "photo.jpg");
}

#[test]
fn output_path_under_output_directory() {
    let mut c = base_config();
    c.output_dir = Some("clean".to_string());
    assert_eq!(output_path_for("some/dir/photo.jpg", &c), "clean/photo.jpg");
    c.output_dir = Some("clean/".to_string());
    assert_eq!(output_path_for("photo.jpg", &c), "clean/photo.jpg");
}

#[test]
fn batch_outcome_per_input_with_failure_isolation() {
    let inputs = vec![
        FileData::Pdf { content: b"%PDF /Author(Jane Doe)".to_vec() },
        FileData::Image { path: "broken.png".to_string(), content: b"garbage".to_vec() },
        FileData::Unknown,
    ];
    let results = process_batch(&inputs, false);
    assert_eq!(results.len(), inputs.len());
    let (pdf_outcome, pdf_output) = &results[0];
    assert!(pdf_outcome.as_ref().unwrap().iter().any(|i| i == "Author: Jane Doe"));
    assert_eq!(pdf_output.as_ref().unwrap(), &b"%PDF /Author(Jane Doe)".to_vec());
    let (img_outcome, img_output) = &results[1];
    assert_eq!(img_outcome.as_ref().unwrap_err(), &ProcessingError::DecodeError);
    assert!(img_output.is_none());
    let (unknown_outcome, unknown_output) = &results[2];
    assert_eq!(
        unknown_outcome.as_ref().unwrap(),
        &vec!["Unsupported file type - no metadata removed".to_string()]
    );
    assert!(unknown_output.is_none());
}

#[test]
fn dry_run_produces_no_output_for_any_input() {
    let inputs = vec![
        FileData::Pdf { content: b"%PDF /Author(Jane Doe)".to_vec() },
        FileData::Image { path: "broken.png".to_string(), content: b"garbage".to_vec() },
        FileData::Video {
            tool_available: true,
            probe_output: None,
            transcode_ok: true,
            transcode_diagnostic: String::new(),
        },
    ];
    let results = process_batch(&inputs, true);
    assert_eq!(results.len(), inputs.len());
    for (outcome, output) in &results {
        assert!(output.is_none());
        assert_eq!(
            outcome.as_ref().unwrap(),
            &vec!["Dry run - no metadata removed".to_string()]
        );
    }
}

#[test]
fn video_without_tool_changes_nothing() {
    let data = FileData::Video {
        tool_available: false,
        probe_output: None,
        transcode_ok: false,
        transcode_diagnostic: String::new(),
    };
    let (outcome, output) = process_one(&data, false);
    assert_eq!(outcome.unwrap_err(), ProcessingError::ToolUnavailable);
    assert!(output.is_none());
}

#[test]
fn stats_count_every_outcome_once() {
    let ok = |n: usize| -> Result<Vec<String>, ProcessingError> {
        Ok((0..n).map(|i| format!("item {}", i)).collect())
    };
    let results: Vec<(FileType, Result<Vec<String>, ProcessingError>)> = vec![
        (FileType::Image, ok(3)),
        (FileType::Image, Err(ProcessingError::DecodeError)),
        (FileType::Video, Err(ProcessingError::ToolUnavailable)),
        (FileType::PDF, ok(8)),
        (FileType::Unknown, ok(1)),
    ];
    let stats = aggregate_stats(&results);
    assert_eq!(stats.files_processed, 3);
    assert_eq!(stats.files_failed, 2);
    assert_eq!(stats.metadata_items_removed, 12);
    assert_eq!(stats.images, 2);
    assert_eq!(stats.videos, 1);
    assert_eq!(stats.pdfs, 1);
    assert_eq!(stats.unknown, 1);
}

#[test]
fn stats_recomputation_is_identical() {
    let results: Vec<(FileType, Result<Vec<String>, ProcessingError>)> = vec![
        (FileType::PDF, Ok(vec!["Author: Jane Doe".to_string()])),
        (FileType::Image, Err(ProcessingError::DecodeError)),
    ];
    let first: ProcessingStats = aggregate_stats(&results);
    let second: ProcessingStats = aggregate_stats(&results);
    assert_eq!(first, second);
    assert_eq!(first.files_processed + first.files_failed, results.len());
}

#[test]
fn stats_of_empty_batch_are_zero() {
    let results: Vec<(FileType, Result<Vec<String>, ProcessingError>)> = Vec::new();
    let stats = aggregate_stats(&results);
    assert_eq!(stats.files_processed, 0);
    assert_eq!(stats.files_failed, 0);
    assert_eq!(stats.metadata_items_removed, 0);
}
