//! Batch metadata stripping: classify files by extension, extract and strip
//! embedded metadata per format (image, video, PDF), and aggregate per-file
//! outcomes into summary statistics.
pub mod batch;
pub mod classify;
pub mod image;
pub mod pdf;
pub mod report;
pub mod text;
pub mod video;

pub use batch::Config;
pub use batch::FileData;
pub use batch::FileDescriptor;
pub use batch::output_path_for;
pub use batch::process_batch;
pub use batch::process_one;
pub use batch::should_process_file_type;
pub use classify::FileType;
pub use classify::determine_file_type;
pub use classify::file_type_to_string;
pub use pdf::extract_metadata_field;
pub use pdf::extract_pdf_metadata_simple;
pub use pdf::strip_pdf_metadata;
pub use image::exif_report;
pub use image::extract_exif_metadata;
pub use image::image_kind_of;
pub use image::strip_image_metadata;
pub use image::ExifFields;
pub use image::ExifRational;
pub use image::GpsCoordinate;
pub use image::ImageKind;
pub use report::aggregate_stats;
pub use report::ProcessingError;
pub use report::ProcessingStats;
pub use text::str_chars;
pub use video::extract_video_metadata;
pub use video::video_fallback_report;
pub use video::video_report;
pub use video::video_report_from_probe;
pub use video::video_strip_outcome;
pub use video::StreamProbe;
pub use video::VideoProbe;
