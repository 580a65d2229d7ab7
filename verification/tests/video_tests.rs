use metastrip::{extract_video_metadata, video_fallback_report, video_report,
    video_report_from_probe, video_strip_outcome, ProcessingError, StreamProbe, VideoProbe};

fn empty_probe() -> VideoProbe {
    VideoProbe { format_tags: Vec::new(), format_name: None, duration: None, streams: Vec::new() }
}

fn empty_stream() -> StreamProbe {
    StreamProbe {
        codec_type: None,
        codec_name: None,
        width: None,
        height: None,
        r_frame_rate: None,
        sample_rate: None,
        channels: None,
        tags: Vec::new(),
    }
}

fn tag(k: &str, v: &str) -> (String, String) {
    (k.to_string(), v.to_string())
}

#[test]
fn video_report_shows_title_tag() {
    let mut p = empty_probe();
    p.format_tags = vec![tag("title", "Test Video")];
    let report = video_report(&p);
    assert_eq!(report, vec!["Title: Test Video".to_string()]);
}

#[test]
fn video_report_orders_known_tags_then_extras() {
    let mut p = empty_probe();
    p.format_tags = vec![
        tag("com.android.version", "14"),
        tag("encoder", "Lavf60"),
        tag("title", "Holiday"),
    ];
    p.format_name = Some("mov,mp4".to_string());
    p.duration = Some("12.5".to_string());
    let report = video_report(&p);
    assert_eq!(
        report,
        vec![
            "Title: Holiday".to_string(),
            "Encoder: Lavf60".to_string(),
            "com.android.version: 14".to_string(),
            "Format: mov,mp4".to_string(),
            "Duration: 12.5 seconds".to_string(),
        ]
    );
}

#[test]
fn video_report_skips_empty_tag_values() {
    let mut p = empty_probe();
    p.format_tags = vec![tag("title", ""), tag("artist", "Someone")];
    let report = video_report(&p);
    assert_eq!(report, vec!["Artist: Someone".to_string()]);
}

#[test]
fn video_report_first_video_and_audio_streams_only() {
    let mut p = empty_probe();
    let mut v1 = empty_stream();
    v1.codec_type = Some("video".to_string());
    v1.codec_name = Some("h264".to_string());
    v1.width = Some(1280);
    v1.height = Some(720);
    v1.r_frame_rate = Some("30/1".to_string());
    v1.tags = vec![tag("language", "und")];
    let mut v2 = empty_stream();
    v2.codec_type = Some("video".to_string());
    v2.codec_name = Some("vp9".to_string());
    let mut a1 = empty_stream();
    a1.codec_type = Some("audio".to_string());
    a1.codec_name = Some("aac".to_string());
    a1.sample_rate = Some("48000".to_string());
    a1.channels = Some(2);
    p.streams = vec![v1, v2, a1];
    let report = video_report(&p);
    assert_eq!(
        report,
        vec![
            "Video Codec: h264".to_string(),
            "Resolution: 1280x720".to_string(),
            "Frame Rate: 30/1".to_string(),
            "Video Language: und".to_string(),
            "Audio Codec: aac".to_string(),
            "Audio Sample Rate: 48000 Hz".to_string(),
            "Audio Channels: 2".to_string(),
        ]
    );
}

#[test]
fn video_report_sentinel_when_empty() {
    let report = video_report(&empty_probe());
    assert_eq!(report, vec!["No readable metadata found in the video file".to_string()]);
}

#[test]
fn extract_video_metadata_parses_probe_json() {
    let json = "{\"format\":{\"format_name\":\"mov\",\"duration\":\"1.0\",\
        \"tags\":{\"title\":\"Test Video\"}},\
        \"streams\":[{\"codec_type\":\"video\",\"codec_name\":\"h264\",\
        \"width\":1280,\"height\":720}]}";
    let report = extract_video_metadata(json);
    assert!(report.iter().any(|i| i == "Title: Test Video"));
    assert!(report.iter().any(|i| i == "Format: mov"));
    assert!(report.iter().any(|i| i == "Duration: 1.0 seconds"));
    assert!(report.iter().any(|i| i == "Video Codec: h264"));
    assert!(report.iter().any(|i| i == "Resolution: 1280x720"));
}

#[test]
fn extract_video_metadata_sentinel_on_bad_json() {
    let report = extract_video_metadata("this is not json");
    assert_eq!(report, vec!["No readable metadata found in the video file".to_string()]);
}

#[test]
fn fallback_report_names_categories() {
    let report = video_fallback_report();
    assert_eq!(
        report,
        vec![
            "Creation time (if present)".to_string(),
            "Encoder information (if present)".to_string(),
            "Device information (if present)".to_string(),
            "GPS data (if present)".to_string(),
            "All metadata headers".to_string(),
        ]
    );
}

#[test]
fn report_from_failed_probe_uses_fallback() {
    let report = video_report_from_probe(&None);
    assert_eq!(report.len(), 5);
    assert_eq!(report[4], "All metadata headers");
}

#[test]
fn missing_tool_yields_tool_unavailable() {
    let outcome = video_strip_outcome(false, &None, false, "");
    assert_eq!(outcome.unwrap_err(), ProcessingError::ToolUnavailable);
}

#[test]
fn failed_transcode_carries_diagnostic() {
    let outcome = video_strip_outcome(true, &None, false, "moov atom not found");
    match outcome.unwrap_err() {
        ProcessingError::ToolExecutionError(d) => assert_eq!(d, "moov atom not found"),
        other => panic!("unexpected error: {:?}", other),
    }
}

#[test]
fn successful_strip_returns_report() {
    let outcome = video_strip_outcome(true, &None, true, "");
    assert_eq!(outcome.unwrap(), video_fallback_report());
}

#[test]
fn error_messages_render() {
    assert_eq!(
        ProcessingError::ToolUnavailable.message(),
        "ffmpeg is not installed. Please install ffmpeg to process video files."
    );
    assert_eq!(
        ProcessingError::ToolExecutionError("boom".to_string()).message(),
        "ffmpeg failed: boom"
    );
    assert_eq!(ProcessingError::UnsupportedFormat.message(), "Unsupported file format");
    assert_eq!(ProcessingError::DecodeError.message(), "Failed to decode input");
    assert_eq!(ProcessingError::ParseError.message(), "Failed to parse input");
    assert_eq!(ProcessingError::IoError("disk full".to_string()).message(), "disk full");
}
