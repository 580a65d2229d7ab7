use metastrip::{determine_file_type, file_type_to_string, should_process_file_type, Config,
    FileType};

fn all_config() -> Config {
    Config {
        overwrite: false,
        output_dir: None,
        backup: false,
        dry_run: false,
        only_images: false,
        only_videos: false,
        only_pdfs: false,
    }
}

#[test]
fn classify_image_extensions() {
    assert_eq!(determine_file_type("photo.jpg"), FileType::Image);
    assert_eq!(determine_file_type("photo.jpeg"), FileType::Image);
    assert_eq!(determine_file_type("photo.png"), FileType::Image);
    assert_eq!(determine_file_type("photo.gif"), FileType::Image);
    assert_eq!(determine_file_type("photo.bmp"), FileType::Image);
    assert_eq!(determine_file_type("photo.tiff"), FileType::Image);
}

#[test]
fn classify_video_and_pdf_extensions() {
    assert_eq!(determine_file_type("clip.mp4"), FileType::Video);
    assert_eq!(determine_file_type("clip.mov"), FileType::Video);
    assert_eq!(determine_file_type("clip.avi"), FileType::Video);
    assert_eq!(determine_file_type("clip.mkv"), FileType::Video);
    assert_eq!(determine_file_type("doc.pdf"), FileType::PDF);
}

#[test]
fn classify_is_case_insensitive() {
    assert_eq!(determine_file_type("PHOTO.JPG"), FileType::Image);
    assert_eq!(determine_file_type("Clip.MkV"), FileType::Video);
    assert_eq!(determine_file_type("Doc.Pdf"), FileType::PDF);
}

#[test]
fn classify_unknown_cases() {
    assert_eq!(determine_file_type("archive.zip"), FileType::Unknown);
    // case-insensitivity applies to ASCII letters only: a control character
    // 32 code points below a digit must not stand in for it
    assert_eq!(determine_file_type("v.mp\u{14}"), FileType::Unknown);
    assert_eq!(determine_file_type("noextension"), FileType::Unknown);
    assert_eq!(determine_file_type(""), FileType::Unknown);
    assert_eq!(determine_file_type(".gitignore"), FileType::Unknown);
    assert_eq!(determine_file_type("dir.d/file"), FileType::Unknown);
    assert_eq!(determine_file_type("a.tar.gz"), FileType::Unknown);
}

#[test]
fn classify_uses_file_name_only() {
    assert_eq!(determine_file_type("some/dir/photo.jpg"), FileType::Image);
    assert_eq!(determine_file_type("dir.jpg/file.pdf"), FileType::PDF);
    assert_eq!(determine_file_type("dir/.jpg"), FileType::Unknown);
}

#[test]
fn classify_repeated_calls_agree() {
    let first = determine_file_type("holiday/photo.JPeG");
    let second = determine_file_type("holiday/photo.JPeG");
    assert_eq!(first, second);
    assert_eq!(first, FileType::Image);
}

#[test]
fn type_names() {
    assert_eq!(file_type_to_string(&FileType::Image), "Image");
    assert_eq!(file_type_to_string(&FileType::Video), "Video");
    assert_eq!(file_type_to_string(&FileType::PDF), "PDF");
    assert_eq!(file_type_to_string(&FileType::Unknown), "Unknown");
}

#[test]
fn filter_admits_supported_types_by_default() {
    let c = all_config();
    assert!(should_process_file_type(&FileType::Image, &c));
    assert!(should_process_file_type(&FileType::Video, &c));
    assert!(should_process_file_type(&FileType::PDF, &c));
    assert!(!should_process_file_type(&FileType::Unknown, &c));
}

#[test]
fn filter_restricts_to_one_category() {
    let mut c = all_config();
    c.only_videos = true;
    assert!(!should_process_file_type(&FileType::Image, &c));
    assert!(should_process_file_type(&FileType::Video, &c));
    assert!(!should_process_file_type(&FileType::PDF, &c));
    assert!(!should_process_file_type(&FileType::Unknown, &c));
    let mut c2 = all_config();
    c2.only_images = true;
    assert!(should_process_file_type(&FileType::Image, &c2));
    assert!(!should_process_file_type(&FileType::Video, &c2));
    let mut c3 = all_config();
    c3.only_pdfs = true;
    assert!(should_process_file_type(&FileType::PDF, &c3));
    assert!(!should_process_file_type(&FileType::Image, &c3));
}
